use crate::syntax::names_view;
use crate::text::push_char;
use vstd::prelude::*;

verus! {

pub open spec fn is_upper(c: char) -> bool {
    'A' <= c <= 'Z'
}

pub open spec fn is_lower_or_digit(c: char) -> bool {
    'a' <= c <= 'z' || '0' <= c <= '9'
}

/// The lower-case letter of an ASCII upper-case letter; any other character
/// unchanged.
pub open spec fn lower(c: char) -> char {
    if is_upper(c) {
        ((c as u8) + 32) as char
    } else {
        c
    }
}

/// `s` in snake case: every ASCII upper-case letter becomes lower case, and
/// gets `_` before it where it follows a lower-case letter or a digit.
pub open spec fn snake(s: Seq<char>) -> Seq<char>
    decreases s.len(),
{
    if s.len() == 0 {
        Seq::<char>::empty()
    } else {
        let head = snake(s.drop_last());
        let c = s.last();
        if is_upper(c) && s.len() > 1 && is_lower_or_digit(s[s.len() - 2]) {
            head.push('_').push(lower(c))
        } else {
            head.push(lower(c))
        }
    }
}

/// The segments in snake case, joined by `_`.
pub open spec fn snake_join(segments: Seq<Seq<char>>) -> Seq<char>
    decreases segments.len(),
{
    if segments.len() == 0 {
        Seq::<char>::empty()
    } else if segments.len() == 1 {
        snake(segments[0])
    } else {
        snake_join(segments.drop_last()).push('_') + snake(segments.last())
    }
}

fn to_lower(c: char) -> (r: char)
    ensures
        r == lower(c),
{
    if 'A' <= c && c <= 'Z' {
        let b: u8 = c as u8;
        (b + 32) as char
    } else {
        c
    }
}

/// Appends `s` in snake case to `out`.
fn push_snake(out: &mut String, s: &str)
    ensures
        final(out)@ == old(out)@ + snake(s@),
{
    let len = s.unicode_len();
    let mut i: usize = 0;
    proof {
        assert(s@.take(0) =~= Seq::<char>::empty());
        assert(out@ =~= old(out)@ + snake(s@.take(0)));
    }
    while i < len
        invariant
            len == s@.len(),
            i <= len,
            out@ == old(out)@ + snake(s@.take(i as int)),
        decreases len - i,
    {
        let c = s.get_char(i);
        let ghost before = out@;
        proof {
            assert(s@.take(i + 1).drop_last() =~= s@.take(i as int));
            assert(s@.take(i + 1).last() == c);
        }
        let mut boundary = false;
        if i > 0 && 'A' <= c && c <= 'Z' {
            let p = s.get_char(i - 1);
            proof {
                assert(s@.take(i + 1)[i - 1] == p);
            }
            boundary = ('a' <= p && p <= 'z') || ('0' <= p && p <= '9');
        }
        if boundary {
            push_char(out, '_');
        }
        push_char(out, to_lower(c));
        proof {
            assert(out@ =~= old(out)@ + snake(s@.take(i + 1)));
        }
        i += 1;
    }
    proof {
        assert(s@.take(len as int) =~= s@);
    }
}

/// The segments in snake case, joined by `_`.
pub fn snake_case(segments: &Vec<String>) -> (name: String)
    ensures
        name@ == snake_join(names_view(segments@)),
{
    let ghost names = names_view(segments@);
    let mut out = String::new();
    let mut i: usize = 0;
    proof {
        assert(names.take(0) =~= Seq::<Seq<char>>::empty());
    }
    while i < segments.len()
        invariant
            i <= segments.len(),
            names == names_view(segments@),
            out@ == snake_join(names.take(i as int)),
        decreases segments.len() - i,
    {
        proof {
            assert(names.take(i + 1).drop_last() =~= names.take(i as int));
            assert(names.take(i + 1).last() == segments@[i as int]@);
            if i == 0 {
                assert(names.take(1)[0] == segments@[0]@);
            }
        }
        if i > 0 {
            push_char(&mut out, '_');
        }
        let ghost before = out@;
        push_snake(&mut out, segments[i].as_str());
        proof {
            if i == 0 {
                assert(out@ =~= snake(segments@[0]@));
            } else {
                assert(out@ =~= snake_join(names.take(i as int)).push('_') + snake(
                    segments@[i as int]@,
                ));
            }
        }
        i += 1;
    }
    proof {
        assert(names.take(segments.len() as int) =~= names);
    }
    out
}

/// Whether `s` starts with `prefix`.
pub open spec fn starts_with(s: Seq<char>, prefix: Seq<char>) -> bool {
    prefix.len() <= s.len() && s.subrange(0, prefix.len() as int) == prefix
}

/// Finds out whether `s` starts with `prefix`.
pub fn has_prefix(s: &str, prefix: &str) -> (b: bool)
    ensures
        b == starts_with(s@, prefix@),
{
    let n = prefix.unicode_len();
    if n > s.unicode_len() {
        return false;
    }
    let mut i: usize = 0;
    while i < n
        invariant
            i <= n,
            n == prefix@.len(),
            n <= s@.len(),
            s@.subrange(0, i as int) == prefix@.subrange(0, i as int),
        decreases n - i,
    {
        if s.get_char(i) != prefix.get_char(i) {
            proof {
                assert(s@.subrange(0, n as int)[i as int] != prefix@[i as int]);
            }
            return false;
        }
        proof {
            assert(s@.subrange(0, i + 1) =~= s@.subrange(0, i as int).push(s@[i as int]));
            assert(prefix@.subrange(0, i + 1) =~= prefix@.subrange(0, i as int).push(
                prefix@[i as int],
            ));
        }
        i += 1;
    }
    proof {
        assert(prefix@.subrange(0, n as int) =~= prefix@);
    }
    true
}

/// The name of the method that sets a property: the property's name where
/// it begins with `set_` already, else `set_` and the property's name.
pub open spec fn setter_name(property: Seq<char>) -> Seq<char> {
    if starts_with(property, "set_"@) {
        property
    } else {
        "set_"@ + property
    }
}

/// The name of the method that sets a property.
pub fn setter(property: &String) -> (name: String)
    ensures
        name@ == setter_name(property@),
{
    if has_prefix(property.as_str(), "set_") {
        property.clone()
    } else {
        let mut name = String::from_str("set_");
        name.append(property.as_str());
        name
    }
}

/// The decimal digit of a number below ten.
pub open spec fn digit(d: nat) -> char {
    ((d + 48) as u8) as char
}

/// `n` in decimal digits, without leading zeros.
pub open spec fn decimal(n: nat) -> Seq<char>
    decreases n,
{
    if n < 10 {
        seq![digit(n)]
    } else {
        decimal(n / 10).push(digit(n % 10))
    }
}

/// Two numbers with the same digits are the same number.
pub proof fn lemma_decimal_injective(a: nat, b: nat)
    requires
        decimal(a) == decimal(b),
    ensures
        a == b,
    decreases a,
{
    lemma_decimal_len(a);
    lemma_decimal_len(b);
    if a < 10 {
        if b >= 10 {
            lemma_decimal_len(b / 10);
            assert(decimal(b).len() >= 2);
        }
        assert(decimal(a)[0] == digit(a));
        assert(decimal(b)[0] == digit(b));
    } else {
        if b < 10 {
            lemma_decimal_len(a / 10);
            assert(decimal(a).len() >= 2);
        }
        let da = decimal(a / 10);
        let db = decimal(b / 10);
        assert(decimal(a).drop_last() =~= da);
        assert(decimal(b).drop_last() =~= db);
        assert(decimal(a).last() == digit(a % 10));
        assert(decimal(b).last() == digit(b % 10));
        lemma_decimal_injective(a / 10, b / 10);
    }
}

pub proof fn lemma_decimal_len(n: nat)
    ensures
        decimal(n).len() >= 1,
    decreases n,
{
    if n >= 10 {
        lemma_decimal_len(n / 10);
    }
}

fn digit_char(d: usize) -> (c: char)
    requires
        d < 10,
    ensures
        c == digit(d as nat),
{
    let b: u8 = d as u8;
    (b + 48) as char
}

fn push_decimal(out: &mut String, n: usize)
    ensures
        final(out)@ == old(out)@ + decimal(n as nat),
    decreases n,
{
    if n < 10 {
        push_char(out, digit_char(n));
        proof {
            assert(out@ =~= old(out)@ + decimal(n as nat));
        }
    } else {
        push_decimal(out, n / 10);
        push_char(out, digit_char(n % 10));
        proof {
            assert(out@ =~= old(out)@ + decimal(n as nat));
        }
    }
}

/// `n` in decimal digits.
pub fn decimal_string(n: usize) -> (s: String)
    ensures
        s@ == decimal(n as nat),
{
    let mut out = String::new();
    push_decimal(&mut out, n);
    proof {
        assert(out@ =~= decimal(n as nat));
    }
    out
}

} // verus!
