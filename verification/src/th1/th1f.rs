//! Copy-on-write strings: borrowed while unchanged, owned once changed.

use std::borrow::Cow;
use vstd::prelude::*;

verus! {

/// What one character becomes when the angle brackets of a text are
/// escaped: `<` becomes `<<<`, `>` becomes `>>>`, and every other character
/// stays itself.
pub open spec fn escape_char(c: char) -> Seq<char> {
    if c == '<' {
        seq!['<', '<', '<']
    } else if c == '>' {
        seq!['>', '>', '>']
    } else {
        seq![c]
    }
}

/// The text `s` with every `<` tripled and every `>` tripled.
pub open spec fn escape_angles(s: Seq<char>) -> Seq<char>
    decreases s.len(),
{
    if s.len() == 0 {
        Seq::empty()
    } else {
        escape_angles(s.drop_last()) + escape_char(s.last())
    }
}

/// Whether the text `s` holds an angle bracket.
pub open spec fn has_angle(s: Seq<char>) -> bool {
    s.contains('<') || s.contains('>')
}

/// Whether the text holds `<` or `>`.
fn holds_angle(val: &str) -> (r: bool)
    ensures
        r == has_angle(val@),
{
    let n = val.unicode_len();
    let mut i: usize = 0;
    while i < n
        invariant
            n == val@.len(),
            i <= n,
            forall|j: int| 0 <= j < i ==> val@[j] != '<' && val@[j] != '>',
        decreases n - i,
    {
        let c = val.get_char(i);
        if c == '<' || c == '>' {
            assert(val@.contains(c));
            return true;
        }
        i = i + 1;
    }
    assert(!val@.contains('<') && !val@.contains('>')) by {
        if val@.contains('<') {
            let j = choose|j: int| 0 <= j < val@.len() && val@[j] == '<';
            assert(val@[j] != '<');
        }
        if val@.contains('>') {
            let j = choose|j: int| 0 <= j < val@.len() && val@[j] == '>';
            assert(val@[j] != '>');
        }
    }
    false
}

/// Escapes the angle brackets of a text: a text without any is borrowed
/// as it is; any other is copied, with every `<` turned into `<<<` and
/// every `>` into `>>>`.
pub fn sanitize(val: &'static str) -> (r: Cow<'static, str>)
    ensures
        has_angle(val@) ==> r is Owned,
        !has_angle(val@) ==> r is Borrowed,
        r@ == escape_angles(val@),
{
    if holds_angle(val) {
        let n = val.unicode_len();
        let mut owned = String::new();
        let mut i: usize = 0;
        while i < n
            invariant
                n == val@.len(),
                i <= n,
                owned@ == escape_angles(val@.subrange(0, i as int)),
            decreases n - i,
        {
            let c = val.get_char(i);
            proof {
                assert(val@.subrange(0, i + 1).drop_last() == val@.subrange(0, i as int));
                reveal_strlit("<<<");
                reveal_strlit(">>>");
            }
            if c == '<' {
                owned.append("<<<");
            } else if c == '>' {
                owned.append(">>>");
            } else {
                owned.append(val.substring_char(i, i + 1));
            }
            i = i + 1;
        }
        assert(val@.subrange(0, n as int) == val@);
        Cow::Owned(owned)
    } else {
        proof {
            lemma_escape_without_angle(val@);
        }
        Cow::Borrowed(val)
    }
}

/// Escaping works character by character: the escape of two texts put
/// together is the two escapes put together.
pub proof fn lemma_escape_concat(a: Seq<char>, b: Seq<char>)
    ensures
        escape_angles(a + b) == escape_angles(a) + escape_angles(b),
    decreases b.len(),
{
    if b.len() == 0 {
        assert(a + b == a);
    } else {
        assert((a + b).drop_last() == a + b.drop_last());
        assert((a + b).last() == b.last());
        lemma_escape_concat(a, b.drop_last());
    }
}

/// A text without angle brackets is its own escape.
pub proof fn lemma_escape_without_angle(s: Seq<char>)
    requires
        !has_angle(s),
    ensures
        escape_angles(s) == s,
    decreases s.len(),
{
    if s.len() > 0 {
        assert(!has_angle(s.drop_last())) by {
            if s.drop_last().contains('<') {
                let j = choose|j: int| 0 <= j < s.drop_last().len() && s.drop_last()[j] == '<';
                assert(s[j] == '<');
            }
            if s.drop_last().contains('>') {
                let j = choose|j: int| 0 <= j < s.drop_last().len() && s.drop_last()[j] == '>';
                assert(s[j] == '>');
            }
        }
        lemma_escape_without_angle(s.drop_last());
        assert(s.contains(s.last()) && s[s.len() - 1] == s.last());
        assert(s.drop_last() + seq![s.last()] == s);
    }
}

/// The name of the variant of a `Cow`: `"Owned"` or `"Borrowed"`.
#[allow(clippy::ptr_arg)]
pub fn cow_type<'a, T: ToOwned + ?Sized + 'a>(val: &Cow<'a, T>) -> (r: &'static str)
    ensures
        val is Owned ==> r@ == "Owned"@,
        val is Borrowed ==> r@ == "Borrowed"@,
{
    match val {
        Cow::Owned(_) => "Owned",
        Cow::Borrowed(_) => "Borrowed",
    }
}

/// A copy of borrowed data as owned data, made by its `ToOwned` impl.
///
/// Calls `ToOwned::to_owned`. Nothing is stated of the copy: for `str`,
/// slices and `Clone` types std documents it as a clone, but a `ToOwned`
/// impl written for another type may build whatever it likes.
#[verifier::external_body]
fn owned_copy<T: ToOwned + ?Sized>(b: &T) -> (r: T::Owned) {
    b.to_owned()
}

/// The data of a `Cow`, owned: owned data is handed over as it is, borrowed
/// data is copied by its `ToOwned` impl.
pub fn make_owned<T: ToOwned + ?Sized>(val: Cow<'_, T>) -> (r: T::Owned)
    ensures
        val matches Cow::Owned(o) ==> r == o,
{
    match val {
        Cow::Borrowed(b) => owned_copy(b),
        Cow::Owned(o) => o,
    }
}

/// The same data as an owned `Cow`: borrowed data is copied into an owned
/// one by its `ToOwned` impl, an owned one is kept as it is.
pub fn create_cow_owned<T: ToOwned + ?Sized>(val: Cow<'_, T>) -> (r: Cow<'_, T>)
    ensures
        r is Owned,
        val is Owned ==> r == val,
{
    match val {
        Cow::Borrowed(b) => Cow::Owned(owned_copy(b)),
        Cow::Owned(_) => val,
    }
}

/// Whether [`make_cow_for_u8`] gives an owned text for `val`: exactly when
/// `val` is not a multiple of 3.
pub open spec fn cow_for_u8_is_owned(val: u8) -> bool {
    val % 3 != 0
}

/// A text chosen by `val`: for a multiple of 3 the borrowed
/// "Convert to borrowed Cow", for any other value the owned
/// "Convert to Owned Cow".
pub fn make_cow_for_u8<'a>(val: u8) -> (r: Cow<'a, str>)
    ensures
        r is Owned <==> cow_for_u8_is_owned(val),
        !cow_for_u8_is_owned(val) ==> r@ == "Convert to borrowed Cow"@,
        cow_for_u8_is_owned(val) ==> r@ == "Convert to Owned Cow"@,
        r is Owned <==> val % 3 != 0,
        r is Borrowed <==> val % 3 == 0,
        val % 3 == 0 ==> r@ == "Convert to borrowed Cow"@,
        val % 3 != 0 ==> r@ == "Convert to Owned Cow"@,
{
    match val % 3 {
        0 => Cow::Borrowed("Convert to borrowed Cow"),
        _ => Cow::Owned(String::from_str("Convert to Owned Cow")),
    }
}

/// Whether [`make_cow_for_u8`] gives an owned text for `val`.
pub fn cow_is_owned(val: u8) -> (r: bool)
    ensures
        r == cow_for_u8_is_owned(val),
        r <==> val % 3 != 0,
{
    match make_cow_for_u8(val) {
        Cow::Owned(_) => true,
        Cow::Borrowed(_) => false,
    }
}

/// The owned text is chosen exactly for the values that are not multiples
/// of 3, and the borrowed one exactly for the multiples of 3: every value
/// with remainder 1 or 2 gets the owned text, every multiple of 3 the
/// borrowed one; adding 3 (where it fits) never changes the choice.
pub proof fn lemma_cow_for_u8_owned_iff_not_multiple_of_three(v: u8)
    ensures
        cow_for_u8_is_owned(v) <==> v % 3 != 0,
        v % 3 == 1 ==> cow_for_u8_is_owned(v),
        v % 3 == 2 ==> cow_for_u8_is_owned(v),
        v % 3 == 0 ==> !cow_for_u8_is_owned(v),
        v + 3 <= u8::MAX ==> cow_for_u8_is_owned((v + 3) as u8) == cow_for_u8_is_owned(v),
{
}

} // verus!
