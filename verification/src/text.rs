//! Joining pieces of text with colons, and telling the pieces apart again.
use vstd::prelude::*;

verus! {

/// `left`, a colon, `right`.
pub open spec fn colon_joined(left: Seq<char>, right: Seq<char>) -> Seq<char> {
    left + seq![':'] + right
}

/// No character of `text` is a colon.
pub open spec fn colon_free(text: Seq<char>) -> bool {
    !text.contains(':')
}

/// Appends a colon and `right` to `left`.
pub(crate) fn push_with_colon(left: &mut String, right: &str)
    ensures
        final(left)@ == colon_joined(old(left)@, right@),
{
    left.append(":");
    proof {
        reveal_strlit(":");
        assert(":"@ =~= seq![':']);
    }
    left.append(right);
}

/// A joined text is one character longer than its pieces, starts with the left one, ends with the
/// right one, and has a colon between them.
pub proof fn law_joined_text_holds_its_pieces(left: Seq<char>, right: Seq<char>)
    ensures
        ({
            let joined = colon_joined(left, right);
            &&& joined.len() == left.len() + 1 + right.len()
            &&& joined.take(left.len() as int) == left
            &&& joined[left.len() as int] == ':'
            &&& joined.skip(left.len() as int + 1) == right
        }),
{
    let joined = colon_joined(left, right);
    assert(joined.take(left.len() as int) =~= left);
    assert(joined.skip(left.len() as int + 1) =~= right);
}

/// Where neither left piece holds a colon, equal joined texts have equal pieces.
pub proof fn lemma_split_at_first_colon(
    left1: Seq<char>,
    right1: Seq<char>,
    left2: Seq<char>,
    right2: Seq<char>,
)
    requires
        colon_free(left1),
        colon_free(left2),
        colon_joined(left1, right1) == colon_joined(left2, right2),
    ensures
        left1 == left2,
        right1 == right2,
{
    let text = colon_joined(left1, right1);
    assert(text[left1.len() as int] == ':');
    assert(text[left2.len() as int] == ':') by {
        assert(colon_joined(left2, right2)[left2.len() as int] == ':');
    }
    if left1.len() < left2.len() {
        assert(colon_joined(left2, right2)[left1.len() as int] == left2[left1.len() as int]);
        assert(left2.contains(':'));
    }
    if left2.len() < left1.len() {
        assert(text[left2.len() as int] == left1[left2.len() as int]);
        assert(left1.contains(':'));
    }
    assert(left1 =~= text.take(left1.len() as int));
    assert(left2 =~= colon_joined(left2, right2).take(left2.len() as int));
    assert(right1 =~= text.skip(left1.len() as int + 1));
    assert(right2 =~= colon_joined(left2, right2).skip(left2.len() as int + 1));
}

/// Where neither right piece holds a colon, equal joined texts have equal pieces.
pub proof fn lemma_split_at_last_colon(
    left1: Seq<char>,
    right1: Seq<char>,
    left2: Seq<char>,
    right2: Seq<char>,
)
    requires
        colon_free(right1),
        colon_free(right2),
        colon_joined(left1, right1) == colon_joined(left2, right2),
    ensures
        left1 == left2,
        right1 == right2,
{
    let text = colon_joined(left1, right1);
    let other = colon_joined(left2, right2);
    assert(text[left1.len() as int] == ':');
    assert(other[left2.len() as int] == ':');
    assert(text.len() == left1.len() + 1 + right1.len());
    assert(other.len() == left2.len() + 1 + right2.len());
    if left1.len() < left2.len() {
        let i = left2.len() - left1.len() - 1;
        assert(text[left2.len() as int] == right1[i]);
        assert(right1.contains(':'));
    }
    if left2.len() < left1.len() {
        let i = left1.len() - left2.len() - 1;
        assert(other[left1.len() as int] == right2[i]);
        assert(right2.contains(':'));
    }
    assert(left1 =~= text.take(left1.len() as int));
    assert(left2 =~= other.take(left2.len() as int));
    assert(right1 =~= text.skip(left1.len() as int + 1));
    assert(right2 =~= other.skip(left2.len() as int + 1));
}

} // verus!
