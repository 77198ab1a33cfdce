//! The string table: display text by string ID, loaded from `id:text` lines.
use vstd::prelude::*;
use vstd::string::{StrSliceExecFns, StringExecFns};
use std::collections::HashMap;

verus! {

broadcast use vstd::std_specs::hash::group_hash_axioms;

/// The character of a decimal digit.
pub open spec fn digit_char(d: int) -> char {
    seq!['0', '1', '2', '3', '4', '5', '6', '7', '8', '9'][d]
}

/// The decimal digits of `n`, most significant first, without leading zeros.
pub open spec fn nat_digits(n: nat) -> Seq<char>
    decreases n,
{
    if n < 10 {
        seq![digit_char(n as int)]
    } else {
        nat_digits(n / 10).push(digit_char((n % 10) as int))
    }
}

/// The decimal text of `v`, led by `-` where it is negative.
pub open spec fn decimal_of(v: int) -> Seq<char> {
    if v < 0 {
        seq!['-'] + nat_digits((-v) as nat)
    } else {
        nat_digits(v as nat)
    }
}

/// Relies on `i32::to_string`, that is `Display` for `i32`: the decimal
/// digits of the value, led by `-` where it is negative.
#[verifier::external_body]
pub(crate) fn decimal_text(v: i32) -> (r: String)
    ensures
        r@ == decimal_of(v as int),
{
    v.to_string()
}

/// Display text by string ID.
pub struct StringTable {
    entries: HashMap<i32, String>,
}

impl View for StringTable {
    type V = Map<i32, String>;

    closed spec fn view(&self) -> Map<i32, String> {
        self.entries@
    }
}

/// The text that stands for string ID `id`: its entry where the table has
/// one, else the ID's decimal digits.
pub open spec fn text_spec(table: Map<i32, String>, id: i32) -> Seq<char> {
    if table.contains_key(id) {
        table[id]@
    } else {
        decimal_of(id as int)
    }
}

impl StringTable {
    pub fn new() -> (r: StringTable)
        ensures
            r@ == Map::<i32, String>::empty(),
    {
        StringTable { entries: HashMap::new() }
    }

    /// Sets the text of `id`, replacing any earlier one.
    pub fn insert(&mut self, id: i32, text: String)
        ensures
            final(self)@ == old(self)@.insert(id, text),
    {
        self.entries.insert(id, text);
    }

    /// The entry of `id`, if any.
    pub fn lookup(&self, id: i32) -> (r: Option<&String>)
        ensures
            match r {
                Some(t) => self@.contains_key(id) && self@[id] == *t,
                None => !self@.contains_key(id),
            },
    {
        self.entries.get(&id)
    }

    /// The text that stands for `id`: its entry, or its decimal digits where
    /// the table has none.
    pub fn text_for(&self, id: i32) -> (r: String)
        ensures
            r@ == text_spec(self@, id),
    {
        match self.entries.get(&id) {
            Some(t) => t.clone(),
            None => decimal_text(id),
        }
    }
}

/// Why a line of the string resource could not be read.
#[derive(PartialEq, Eq, Structural, Debug, Clone, Copy)]
pub enum StringLineError {
    /// The line has no `:`.
    MissingSeparator,
    /// What stands before the first `:` is not a 32-bit decimal integer.
    InvalidId,
}

/// The value of a sequence of decimal digit characters.
pub open spec fn digits_value(s: Seq<char>) -> int
    decreases s.len(),
{
    if s.len() == 0 {
        0
    } else {
        digits_value(s.drop_last()) * 10 + (s.last() as int - '0' as int)
    }
}

pub open spec fn is_digit(c: char) -> bool {
    '0' <= c <= '9'
}

/// `s` without its leading sign, if any.
pub open spec fn unsigned_part(s: Seq<char>) -> Seq<char> {
    if s.len() > 0 && (s[0] == '-' || s[0] == '+') {
        s.drop_first()
    } else {
        s
    }
}

/// The 32-bit integer that `s` writes in decimal, with an optional `+` or
/// `-` sign, if it writes one.
pub open spec fn parse_i32_spec(s: Seq<char>) -> Option<i32> {
    let neg = s.len() > 0 && s[0] == '-';
    let body = unsigned_part(s);
    let v = if neg {
        -digits_value(body)
    } else {
        digits_value(body)
    };
    if body.len() == 0 || !(forall|i: int| 0 <= i < body.len() ==> is_digit(#[trigger] body[i])) {
        None
    } else if i32::MIN <= v <= i32::MAX {
        Some(v as i32)
    } else {
        None
    }
}

/// The position of the first `:` of `s`, if any.
pub open spec fn first_colon(s: Seq<char>) -> Option<int> {
    if exists|i: int| 0 <= i < s.len() && s[i] == ':' {
        Some(choose|i: int| 0 <= i < s.len() && s[i] == ':' && forall|k: int| 0 <= k < i ==> s[k] != ':')
    } else {
        None
    }
}

const CAP: u64 = 0x8000_0001;

/// Reads one line of the string resource: a string ID, a `:`, then the text.
pub fn parse_string_line(line: &str) -> (r: Result<(i32, String), StringLineError>)
    ensures
        match r {
            Ok((id, text)) => exists|p: int|
                {
                    &&& 0 <= p < line@.len()
                    &&& line@[p] == ':'
                    &&& forall|k: int| 0 <= k < p ==> line@[k] != ':'
                    &&& parse_i32_spec(line@.subrange(0, p)) == Some(id)
                    &&& text@ == line@.subrange(p + 1, line@.len() as int)
                },
            Err(StringLineError::MissingSeparator) => forall|k: int|
                0 <= k < line@.len() ==> line@[k] != ':',
            Err(StringLineError::InvalidId) => exists|p: int|
                {
                    &&& 0 <= p < line@.len()
                    &&& line@[p] == ':'
                    &&& forall|k: int| 0 <= k < p ==> line@[k] != ':'
                    &&& parse_i32_spec(line@.subrange(0, p)) is None
                },
        },
{
    let n = line.unicode_len();
    let mut p: usize = 0;
    while p < n
        invariant
            n == line@.len(),
            p <= n,
            forall|k: int| 0 <= k < p ==> line@[k] != ':',
        ensures
            p <= n,
            forall|k: int| 0 <= k < p ==> line@[k] != ':',
            p < n ==> line@[p as int] == ':',
        decreases n - p,
    {
        if line.get_char(p) == ':' {
            break;
        }
        p = p + 1;
    }
    if p == n {
        return Err(StringLineError::MissingSeparator);
    }
    let id_text = line.substring_char(0, p);
    match parse_i32(id_text) {
        Some(id) => {
            let rest = line.substring_char(p + 1, n);
            let text = String::from_str(rest);
            assert(line@[p as int] == ':');
            assert(parse_i32_spec(line@.subrange(0, p as int)) == Some(id));
            assert(text@ == line@.subrange(p + 1, line@.len() as int));
            Ok((id, text))
        },
        None => {
            assert(line@[p as int] == ':');
            assert(parse_i32_spec(line@.subrange(0, p as int)) is None);
            Err(StringLineError::InvalidId)
        },
    }
}

/// Reads a 32-bit decimal integer with an optional sign, as `str::parse` does.
pub fn parse_i32(s: &str) -> (r: Option<i32>)
    ensures
        r == parse_i32_spec(s@),
{
    let n = s.unicode_len();
    let mut start: usize = 0;
    let mut neg = false;
    if n > 0 {
        let c = s.get_char(0);
        if c == '-' {
            neg = true;
            start = 1;
        } else if c == '+' {
            start = 1;
        }
    }
    let ghost body = s@.subrange(start as int, n as int);
    assert(body =~= unsigned_part(s@));
    if start == n {
        return None;
    }
    let mut acc: u64 = 0;
    let mut k: usize = start;
    while k < n
        invariant
            n == s@.len(),
            start <= k <= n,
            body == s@.subrange(start as int, n as int),
            body == unsigned_part(s@),
            neg == (s@.len() > 0 && s@[0] == '-'),
            forall|i: int| start <= i < k ==> is_digit(#[trigger] s@[i]),
            acc == if digits_value(s@.subrange(start as int, k as int)) >= CAP {
                CAP as int
            } else {
                digits_value(s@.subrange(start as int, k as int))
            },
        decreases n - k,
    {
        let c = s.get_char(k);
        if !('0' <= c && c <= '9') {
            assert(body[k - start] == c);
            assert(!is_digit(body[k - start]));
            assert(parse_i32_spec(s@) is None);
            return None;
        }
        let d = (c as u32 - '0' as u32) as u64;
        let ghost prev = s@.subrange(start as int, k as int);
        assert(s@.subrange(start as int, k + 1).drop_last() =~= prev);
        proof {
            lemma_digits_value_nonneg(prev);
        }
        acc = if acc >= CAP {
            CAP
        } else {
            let v = acc * 10 + d;
            if v >= CAP {
                CAP
            } else {
                v
            }
        };
        k = k + 1;
    }
    assert(s@.subrange(start as int, k as int) =~= body);
    assert forall|i: int| 0 <= i < body.len() implies is_digit(#[trigger] body[i]) by {
        assert(body[i] == s@[i + start]);
    }
    if neg {
        if acc > 0x8000_0000 {
            None
        } else {
            Some((0 - acc as i64) as i32)
        }
    } else {
        if acc > 0x7fff_ffff {
            None
        } else {
            Some(acc as i32)
        }
    }
}

proof fn lemma_digits_value_nonneg(s: Seq<char>)
    requires
        forall|i: int| 0 <= i < s.len() ==> is_digit(#[trigger] s[i]),
    ensures
        digits_value(s) >= 0,
    decreases s.len(),
{
    if s.len() > 0 {
        lemma_digits_value_nonneg(s.drop_last());
    }
}

} // verus!
