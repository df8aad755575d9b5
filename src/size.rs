//! The size of the terminal that the child sees.
use vstd::prelude::*;

verus! {

/// Columns used when no terminal is attached and no override is given.
pub const FALLBACK_COLUMNS: u16 = 80;

/// Rows used when no terminal is attached and no override is given.
pub const FALLBACK_ROWS: u16 = 24;

/// The dimensions given to the pseudo-terminal.
#[derive(Clone, Copy, Debug, PartialEq, Eq, Structural)]
pub struct TerminalSize {
    pub columns: u16,
    pub rows: u16,
}

/// Overrides of the terminal's dimensions, each already read as a number.
#[derive(Clone, Copy, Debug, PartialEq, Eq, Structural)]
pub struct SizeOverrides {
    pub columns: Option<u16>,
    pub rows: Option<u16>,
}

pub open spec fn is_digit(c: char) -> bool {
    '0' <= c && c <= '9'
}

pub open spec fn all_digits(s: Seq<char>) -> bool {
    forall|i: int| 0 <= i < s.len() ==> is_digit(#[trigger] s[i])
}

/// The number that a string of decimal digits writes.
pub open spec fn digits_value(s: Seq<char>) -> nat
    decreases s.len(),
{
    if s.len() == 0 {
        0
    } else {
        digits_value(s.drop_last()) * 10 + (s.last() as nat - '0' as nat) as nat
    }
}

/// The digits of a decimal numeral: what follows an optional leading `+`.
pub open spec fn numeral_digits(s: Seq<char>) -> Seq<char> {
    if s.len() > 0 && s[0] == '+' {
        s.drop_first()
    } else {
        s
    }
}

/// The dimension a text gives: a decimal numeral, optionally signed with `+`,
/// whose value is positive and fits in 16 bits; any other text gives none.
pub open spec fn dimension_of(s: Seq<char>) -> Option<u16> {
    let d = numeral_digits(s);
    if d.len() > 0 && all_digits(d) && 0 < digits_value(d) <= u16::MAX {
        Some(digits_value(d) as u16)
    } else {
        None
    }
}

/// The size picked from the attached terminal's size (if one is attached) and the overrides.
pub open spec fn resolved(attached: Option<(u16, u16)>, overrides: SizeOverrides) -> TerminalSize {
    let base = match attached {
        Some(r) => r,
        None => (FALLBACK_COLUMNS, FALLBACK_ROWS),
    };
    TerminalSize {
        columns: match overrides.columns {
            Some(c) => c,
            None => base.0,
        },
        rows: match overrides.rows {
            Some(r) => r,
            None => base.1,
        },
    }
}

proof fn lemma_digits_value_step(s: Seq<char>, i: int)
    requires
        0 <= i < s.len(),
    ensures
        digits_value(s.take(i + 1)) == digits_value(s.take(i)) * 10 + (s[i] as nat - '0' as nat) as nat,
{
    assert(s.take(i + 1).drop_last() =~= s.take(i));
}

/// Reads a terminal dimension from text: a positive decimal number below 65536,
/// with an optional leading `+`. Anything else, zero included, gives `None`.
pub fn parse_dimension(text: &str) -> (r: Option<u16>)
    ensures
        r == dimension_of(text@),
{
    let n = text.unicode_len();
    let mut i: usize = 0;
    if n > 0 && text.get_char(0) == '+' {
        i = 1;
    }
    let ghost d = numeral_digits(text@);
    let ghost start = i as int;
    assert(d =~= text@.subrange(start, n as int));
    if i == n {
        return None;
    }
    let mut value: u32 = 0;
    let mut over = false;
    while i < n
        invariant
            0 <= start <= i <= n,
            n == text@.len(),
            d.len() == n - start,
            d == numeral_digits(text@),
            d =~= text@.subrange(start, n as int),
            all_digits(d.take(i - start)),
            over ==> digits_value(d.take(i - start)) > u16::MAX,
            !over ==> value as nat == digits_value(d.take(i - start)),
            value <= u16::MAX,
        decreases n - i,
    {
        let c = text.get_char(i);
        if !('0' <= c && c <= '9') {
            assert(d[i - start] == c);
            assert(!all_digits(d));
            return None;
        }
        let digit = (c as u32) - ('0' as u32);
        proof {
            lemma_digits_value_step(d, i - start);
            assert(d[i - start] == c);
            assert forall|k: int| 0 <= k < i + 1 - start implies is_digit(#[trigger] d.take(i + 1 - start)[k]) by {
                if k < i - start {
                    assert(d.take(i + 1 - start)[k] == d.take(i - start)[k]);
                }
            }
        }
        if !over {
            let next = value * 10 + digit;
            if next > 65535 {
                over = true;
            } else {
                value = next;
            }
        } else {
            assert(digits_value(d.take(i - start)) * 10 + digit > u16::MAX) by (nonlinear_arith)
                requires digits_value(d.take(i - start)) > u16::MAX;
        }
        i = i + 1;
    }
    assert(d.take(n - start) =~= d);
    if over || value == 0 {
        None
    } else {
        Some(value as u16)
    }
}

/// Reads the overrides from the texts found for the column and the row count.
/// A missing or unreadable text leaves that dimension without an override.
pub fn read_overrides(columns: Option<&str>, rows: Option<&str>) -> (r: SizeOverrides)
    ensures
        r.columns == override_of(match columns {
            Some(t) => Some(t@),
            None => None,
        }),
        r.rows == override_of(match rows {
            Some(t) => Some(t@),
            None => None,
        }),
{
    let c = match columns {
        Some(t) => parse_dimension(t),
        None => None,
    };
    let r = match rows {
        Some(t) => parse_dimension(t),
        None => None,
    };
    SizeOverrides { columns: c, rows: r }
}

/// Picks the size: each override replaces its dimension; the rest comes from
/// the attached terminal's size, or from 80 columns by 24 rows when none is attached.
pub fn resolve_size(attached: Option<(u16, u16)>, overrides: SizeOverrides) -> (r: TerminalSize)
    ensures
        r == resolved(attached, overrides),
{
    let (base_columns, base_rows) = match attached {
        Some(dims) => dims,
        None => (FALLBACK_COLUMNS, FALLBACK_ROWS),
    };
    let columns = match overrides.columns {
        Some(c) => c,
        None => base_columns,
    };
    let rows = match overrides.rows {
        Some(r) => r,
        None => base_rows,
    };
    TerminalSize { columns, rows }
}

/// Relies on terminal_size::terminal_size: the size of the first of stdout,
/// stderr and stdin that is a terminal, reported only when both of its
/// dimensions are positive.
#[verifier::external_body]
fn attached_terminal_size() -> (r: Option<(u16, u16)>)
    ensures
        r matches Some(dims) ==> dims.0 > 0 && dims.1 > 0,
{
    terminal_size::terminal_size().map(|(w, h)| (w.0, h.0))
}

/// Whether `size` is what the overrides make of some attached terminal's
/// size: each override is kept, and a dimension without one is positive.
pub open spec fn fits(size: TerminalSize, overrides: SizeOverrides) -> bool {
    &&& exists|attached: Option<(u16, u16)>| size == resolved(attached, overrides)
    &&& overrides.columns matches Some(c) ==> size.columns == c
    &&& overrides.rows matches Some(n) ==> size.rows == n
    &&& overrides.columns is None ==> size.columns > 0
    &&& overrides.rows is None ==> size.rows > 0
}

/// The size for the child: the attached terminal's size under the overrides.
/// Both dimensions are positive whatever terminal is attached.
pub fn term_size(overrides: SizeOverrides) -> (r: TerminalSize)
    ensures
        fits(r, overrides),
{
    let attached = attached_terminal_size();
    resolve_size(attached, overrides)
}

/// The override a text gives for one dimension, where a text was found.
pub open spec fn override_of(text: Option<Seq<char>>) -> Option<u16> {
    match text {
        Some(t) => dimension_of(t),
        None => None,
    }
}

/// Valid overrides for both dimensions give exactly that size, positive,
/// whatever terminal is attached.
pub proof fn lemma_valid_overrides_win(attached: Option<(u16, u16)>, columns: Seq<char>, rows: Seq<char>)
    requires
        dimension_of(columns) is Some,
        dimension_of(rows) is Some,
    ensures
        resolved(attached, SizeOverrides { columns: dimension_of(columns), rows: dimension_of(rows) })
            == (TerminalSize { columns: dimension_of(columns).unwrap(), rows: dimension_of(rows).unwrap() }),
        dimension_of(columns).unwrap() > 0,
        dimension_of(rows).unwrap() > 0,
{
}

/// Without a valid override the size is the attached terminal's, or 80 by 24
/// when none is attached.
pub proof fn lemma_fallback_without_overrides(
    attached: Option<(u16, u16)>,
    columns: Option<Seq<char>>,
    rows: Option<Seq<char>>,
)
    requires
        override_of(columns) is None,
        override_of(rows) is None,
    ensures
        resolved(attached, SizeOverrides { columns: override_of(columns), rows: override_of(rows) })
            == (match attached {
                Some(dims) => TerminalSize { columns: dims.0, rows: dims.1 },
                None => TerminalSize { columns: 80, rows: 24 },
            }),
{
}

} // verus!
