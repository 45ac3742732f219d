//! Raw native property bags.
//!
//! Native objects describe themselves through a duck-typed bag of string
//! properties.  The normalizers read the bag through typed, independently
//! fallible extraction functions; a missing or malformed required field
//! suppresses the whole event, a missing derived field falls back to a
//! default.

use vstd::prelude::*;
use vstd::string::StrSliceExecFns;

verus! {

/// One native property: a string key bound to a raw string value.
#[derive(Clone, Debug)]
pub struct Property {
    pub key: String,
    pub value: String,
}

/// A raw native property bag, exactly as a session callback hands it over.
#[derive(Clone, Debug)]
pub struct PropertyBag {
    pub props: Vec<Property>,
}

/// The value bound to `key`; the first binding wins.
pub open spec fn lookup(props: Seq<Property>, key: Seq<char>) -> Option<Seq<char>>
    decreases props.len(),
{
    if props.len() == 0 {
        None
    } else if props[0].key@ == key {
        Some(props[0].value@)
    } else {
        lookup(props.skip(1), key)
    }
}

impl PropertyBag {
    /// Walk the bag front to back for `key`.
    pub fn get(&self, key: &String) -> (r: Option<&String>)
        ensures
            match r {
                Some(v) => lookup(self.props@, key@) == Some(v@),
                None => lookup(self.props@, key@) == None::<Seq<char>>,
            },
    {
        let n = self.props.len();
        let mut i: usize = 0;
        proof {
            assert(self.props@.skip(0) =~= self.props@);
        }
        while i < n
            invariant
                i <= n == self.props@.len(),
                lookup(self.props@, key@) == lookup(self.props@.skip(i as int), key@),
            decreases n - i,
        {
            proof {
                assert(self.props@.skip(i as int)[0] == self.props@[i as int]);
            }
            if self.props[i].key == *key {
                return Some(&self.props[i].value);
            }
            proof {
                assert(self.props@.skip(i as int).skip(1) =~= self.props@.skip(i as int + 1));
            }
            i = i + 1;
        }
        None
    }
}

/// The numeric reading of the property bound to `key`, when it is
/// present and is a well-formed decimal number.
pub open spec fn spec_num_prop(props: Seq<Property>, key: Seq<char>) -> Option<u32> {
    match lookup(props, key) {
        Option::None => Option::None,
        Option::Some(raw) => parse_u32_spec(raw),
    }
}

/// Typed extraction of a numeric property.
pub fn num_prop(bag: &PropertyBag, key: &str) -> (r: Option<u32>)
    ensures
        r == spec_num_prop(bag.props@, key@),
{
    match bag.get(&key.to_owned()) {
        Option::Some(raw) => parse_u32(raw),
        Option::None => Option::None,
    }
}

/// The character sequence of an optional text, read as empty when the
/// text is absent: the fallback for derived, non-required fields.
pub open spec fn opt_text(o: Option<String>) -> Seq<char> {
    match o {
        Option::Some(s) => s@,
        Option::None => Seq::empty(),
    }
}

/// The optional character sequence of an optional text.
pub open spec fn opt_view(o: Option<String>) -> Option<Seq<char>> {
    match o {
        Option::Some(s) => Option::Some(s@),
        Option::None => Option::None,
    }
}

/// Clone an optional text, keeping its characters.
pub fn clone_opt_string(o: &Option<String>) -> (r: Option<String>)
    ensures
        opt_view(r) == opt_view(*o),
{
    match o {
        Option::Some(s) => Option::Some(s.clone()),
        Option::None => Option::None,
    }
}

/// The text itself when present, the empty string otherwise: the
/// fallback for derived, non-required fields.
pub fn text_or_empty(o: &Option<String>) -> (r: String)
    ensures
        r@ == opt_text(*o),
{
    match o {
        Option::Some(s) => s.clone(),
        Option::None => String::new(),
    }
}

/// Do two optional texts hold the same characters?
pub fn opt_text_eq(a: &Option<String>, b: &Option<String>) -> (r: bool)
    ensures
        r == (opt_view(*a) == opt_view(*b)),
{
    match (a, b) {
        (Option::Some(x), Option::Some(y)) => *x == *y,
        (Option::None, Option::None) => true,
        _ => false,
    }
}

/// Every character is an ASCII decimal digit.
pub open spec fn is_digit_seq(s: Seq<char>) -> bool {
    forall|i: int| 0 <= i < s.len() ==> 48 <= #[trigger] (s[i] as int) <= 57
}

/// The number a digit string denotes, most significant digit first.
pub open spec fn digits_value(s: Seq<char>) -> int
    decreases s.len(),
{
    if s.len() == 0 {
        0
    } else {
        digits_value(s.drop_last()) * 10 + (s.last() as int - 48)
    }
}

proof fn lemma_digits_value_nonneg(s: Seq<char>)
    requires
        is_digit_seq(s),
    ensures
        digits_value(s) >= 0,
    decreases s.len(),
{
    if s.len() > 0 {
        assert(forall|i: int| 0 <= i < s.drop_last().len()
            ==> 48 <= #[trigger] (s.drop_last()[i] as int) <= 57);
        lemma_digits_value_nonneg(s.drop_last());
    }
}

proof fn lemma_digits_value_prefix(s: Seq<char>, i: int)
    requires
        is_digit_seq(s),
        0 <= i <= s.len(),
    ensures
        digits_value(s.subrange(0, i)) <= digits_value(s),
    decreases s.len() - i,
{
    if i == s.len() {
        assert(s.subrange(0, i) =~= s);
    } else {
        let shorter = s.subrange(0, i);
        let longer = s.subrange(0, i + 1);
        assert(longer.drop_last() =~= shorter);
        assert(longer.last() == s[i]);
        assert(forall|j: int| 0 <= j < shorter.len()
            ==> 48 <= #[trigger] (shorter[j] as int) <= 57);
        lemma_digits_value_nonneg(shorter);
        lemma_digits_value_prefix(s, i + 1);
    }
}

/// How a raw decimal property value reads as a 32-bit number: defined
/// exactly when the string is non-empty, all digits, and in range.
pub open spec fn parse_u32_spec(s: Seq<char>) -> Option<u32> {
    if s.len() > 0 && is_digit_seq(s) && digits_value(s) <= u32::MAX {
        Some(digits_value(s) as u32)
    } else {
        None
    }
}

/// Typed extraction of a numeric property value.
pub fn parse_u32(s: &String) -> (r: Option<u32>)
    ensures
        r == parse_u32_spec(s@),
{
    let n = s.as_str().unicode_len();
    if n == 0 {
        return None;
    }
    let mut acc: u64 = 0;
    let mut i: usize = 0;
    while i < n
        invariant
            0 < n == s@.len(),
            i <= n,
            is_digit_seq(s@.subrange(0, i as int)),
            acc == digits_value(s@.subrange(0, i as int)),
            acc <= u32::MAX,
        decreases n - i,
    {
        let c = s.as_str().get_char(i);
        let code = c as u32;
        if code < 48 || code > 57 {
            proof {
                assert(!(48 <= (s@[i as int] as int) <= 57));
            }
            return None;
        }
        proof {
            assert(s@.subrange(0, i as int + 1).drop_last() =~= s@.subrange(0, i as int));
            assert(s@.subrange(0, i as int + 1).last() == s@[i as int]);
        }
        acc = acc * 10 + ((code - 48) as u64);
        i = i + 1;
        if acc > (u32::MAX as u64) {
            proof {
                if is_digit_seq(s@) {
                    lemma_digits_value_prefix(s@, i as int);
                }
            }
            return None;
        }
    }
    proof {
        assert(s@.subrange(0, n as int) =~= s@);
    }
    Some(acc as u32)
}

} // verus!
