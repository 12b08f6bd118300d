//! Candidate texts: the two templates that a tenant identifier is set into,
//! and the characters that no endpoint may hold.

use vstd::prelude::*;

verus! {

/// Scheme and host of every endpoint, up to the slash that opens the path.
pub const AUTHORITY: &'static str = "https://login.microsoftonline.com/";

/// Tail of an authorization endpoint, after the audience or tenant segment.
pub const AUTHORIZE_TAIL: &'static str = "/oauth2/v2.0/authorize";

/// Tail of a token endpoint, after the audience or tenant segment.
pub const TOKEN_TAIL: &'static str = "/oauth2/v2.0/token";

/// The text that stands for the authorization endpoint of tenant `id` before
/// it is parsed: `id` set verbatim between the authority and the tail.
pub open spec fn auth_candidate(id: Seq<char>) -> Seq<char> {
    AUTHORITY@ + id + AUTHORIZE_TAIL@
}

/// The text that stands for the token endpoint of tenant `id` before it is
/// parsed: `id` set verbatim between the authority and the tail.
pub open spec fn token_candidate(id: Seq<char>) -> Seq<char> {
    AUTHORITY@ + id + TOKEN_TAIL@
}

/// Whether `text` opens with the authority: scheme, host and the slash that
/// opens the path, letter for letter.
pub open spec fn opens_with_authority(text: Seq<char>) -> bool {
    text.len() >= AUTHORITY@.len() && text.take(AUTHORITY@.len() as int) == AUTHORITY@
}

/// Builds the authorization candidate of tenant `id`.
pub fn auth_candidate_of(id: &str) -> (text: String)
    ensures
        text@ == auth_candidate(id@),
{
    let mut text = String::from_str(AUTHORITY);
    text.append(id);
    text.append(AUTHORIZE_TAIL);
    text
}

/// Builds the token candidate of tenant `id`.
pub fn token_candidate_of(id: &str) -> (text: String)
    ensures
        text@ == token_candidate(id@),
{
    let mut text = String::from_str(AUTHORITY);
    text.append(id);
    text.append(TOKEN_TAIL);
    text
}

/// Whether `c` is white space or a control character: a control code of
/// either block, the space, or one of the wider blanks and separators.
pub open spec fn is_space_or_control(c: char) -> bool {
    ||| c <= '\u{20}'
    ||| '\u{7f}' <= c <= '\u{a0}'
    ||| c == '\u{1680}'
    ||| '\u{2000}' <= c <= '\u{200a}'
    ||| c == '\u{2028}'
    ||| c == '\u{2029}'
    ||| c == '\u{202f}'
    ||| c == '\u{205f}'
    ||| c == '\u{3000}'
}

/// Whether some character of `text` is white space or a control character.
pub open spec fn has_space_or_control(text: Seq<char>) -> bool {
    exists|i: int| 0 <= i < text.len() && is_space_or_control(#[trigger] text[i])
}

/// Tells whether `c` is white space or a control character.
pub fn space_or_control(c: char) -> (b: bool)
    ensures
        b == is_space_or_control(c),
{
    c <= '\u{20}'
        || ('\u{7f}' <= c && c <= '\u{a0}')
        || c == '\u{1680}'
        || ('\u{2000}' <= c && c <= '\u{200a}')
        || c == '\u{2028}'
        || c == '\u{2029}'
        || c == '\u{202f}'
        || c == '\u{205f}'
        || c == '\u{3000}'
}

/// Tells whether `text` holds white space or a control character anywhere.
pub fn contains_space_or_control(text: &str) -> (b: bool)
    ensures
        b == has_space_or_control(text@),
{
    let mut found = false;
    for c in it: text.chars()
        invariant
            it.seq() == text@,
            found == has_space_or_control(text@.take(it.index() as int)),
    {
        proof {
            lemma_scan_step(text@, it.index() as int);
        }
        if space_or_control(c) {
            found = true;
        }
    }
    assert(text@.take(text@.len() as int) == text@);
    found
}

/// Scanning one character further finds what was found before, or that
/// character.
proof fn lemma_scan_step(text: Seq<char>, i: int)
    requires
        0 <= i < text.len(),
    ensures
        has_space_or_control(text.take(i + 1)) == (has_space_or_control(text.take(i))
            || is_space_or_control(text[i])),
{
    let shorter = text.take(i);
    let longer = text.take(i + 1);
    if has_space_or_control(shorter) {
        let k = choose|k: int| 0 <= k < shorter.len() && is_space_or_control(#[trigger] shorter[k]);
        assert(is_space_or_control(longer[k]));
    }
    if is_space_or_control(text[i]) {
        assert(is_space_or_control(longer[i]));
    }
    if has_space_or_control(longer) {
        let k = choose|k: int| 0 <= k < longer.len() && is_space_or_control(#[trigger] longer[k]);
        if k < i {
            assert(is_space_or_control(shorter[k]));
        }
    }
}

/// Each candidate is the authority, the identifier and the tail, in this
/// order and with nothing between them: the identifier sits, unchanged,
/// right behind the host's slash and right before the tail.
pub proof fn lemma_candidate_frames_identifier(id: Seq<char>)
    ensures
        auth_candidate(id).len() == AUTHORITY@.len() + id.len() + AUTHORIZE_TAIL@.len(),
        auth_candidate(id).take(AUTHORITY@.len() as int) == AUTHORITY@,
        auth_candidate(id).subrange(AUTHORITY@.len() as int, (AUTHORITY@.len() + id.len()) as int) == id,
        auth_candidate(id).skip((AUTHORITY@.len() + id.len()) as int) == AUTHORIZE_TAIL@,
        token_candidate(id).len() == AUTHORITY@.len() + id.len() + TOKEN_TAIL@.len(),
        token_candidate(id).take(AUTHORITY@.len() as int) == AUTHORITY@,
        token_candidate(id).subrange(AUTHORITY@.len() as int, (AUTHORITY@.len() + id.len()) as int) == id,
        token_candidate(id).skip((AUTHORITY@.len() + id.len()) as int) == TOKEN_TAIL@,
        opens_with_authority(auth_candidate(id)),
        opens_with_authority(token_candidate(id)),
{
    assert(auth_candidate(id).take(AUTHORITY@.len() as int) =~= AUTHORITY@);
    assert(token_candidate(id).take(AUTHORITY@.len() as int) =~= AUTHORITY@);
}

/// A candidate holds white space or a control character exactly when the
/// identifier does: the authority and the tails hold none.
pub proof fn lemma_candidate_is_as_clean_as_identifier(id: Seq<char>)
    ensures
        has_space_or_control(auth_candidate(id)) == has_space_or_control(id),
        has_space_or_control(token_candidate(id)) == has_space_or_control(id),
{
    reveal_strlit("https://login.microsoftonline.com/");
    reveal_strlit("/oauth2/v2.0/authorize");
    reveal_strlit("/oauth2/v2.0/token");
    lemma_framed_is_as_clean(AUTHORITY@, id, AUTHORIZE_TAIL@);
    lemma_framed_is_as_clean(AUTHORITY@, id, TOKEN_TAIL@);
}

/// Between a clean head and a clean tail, a text holds white space or a
/// control character exactly when its middle does.
proof fn lemma_framed_is_as_clean(head: Seq<char>, middle: Seq<char>, tail: Seq<char>)
    requires
        !has_space_or_control(head),
        !has_space_or_control(tail),
    ensures
        has_space_or_control(head + middle + tail) == has_space_or_control(middle),
{
    let whole = head + middle + tail;
    if has_space_or_control(middle) {
        let k = choose|k: int| 0 <= k < middle.len() && is_space_or_control(#[trigger] middle[k]);
        assert(is_space_or_control(whole[head.len() + k]));
    }
    if has_space_or_control(whole) {
        let k = choose|k: int| 0 <= k < whole.len() && is_space_or_control(#[trigger] whole[k]);
        if k < head.len() {
            assert(is_space_or_control(head[k]));
        } else if k < head.len() + middle.len() {
            assert(is_space_or_control(middle[k - head.len()]));
        } else {
            assert(is_space_or_control(tail[k - head.len() - middle.len()]));
        }
    }
}

} // verus!
