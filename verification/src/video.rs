//! Turning what the user typed into a video identifier.

use vstd::prelude::*;
use vstd::string::StrSliceExecFns;
use vstd::string::StringExecFns;

verus! {

/// Why a typed reference was turned down.
#[derive(Clone, Copy, Debug, PartialEq, Eq, Structural)]
pub enum RejectionReason {
    /// Nothing but white space was typed.
    Empty,
    /// The text holds no video link and is no identifier by itself.
    Unparseable,
}

/// The identifier of a video, as the player understands it: eleven
/// characters, each a letter or digit of ASCII, an underscore or a
/// hyphen.
#[derive(Debug)]
pub struct MediaId {
    text: String,
}

impl View for MediaId {
    type V = Seq<char>;

    closed spec fn view(&self) -> Seq<char> {
        self.text@
    }
}

/// The number of characters in a video identifier.
pub const ID_LENGTH: usize = 11;

/// The three shapes of a video link, each followed by the identifier,
/// which is the first group.
pub const LINK_PATTERN: &'static str =
    r"(?:youtube\.com/watch\?v=|youtu\.be/|youtube\.com/embed/)([a-zA-Z0-9_-]{11})";

/// The error of `regex_lite` for a pattern that it does not take.
#[verifier::external_type_specification]
#[verifier::external_body]
pub struct ExPatternError(regex_lite::Error);

/// Whether `regex_lite` takes `pattern` as a regular expression: whether
/// `Regex::new` returns a compiled expression for it.
pub uninterp spec fn regex_accepts(pattern: Seq<char>) -> bool;

/// What group number `group` holds in the leftmost match of the regular
/// expression `pattern` in `haystack`, as `regex_lite` finds it: `None`
/// where nothing matches or where the group took no part in the match.
pub uninterp spec fn regex_capture(pattern: Seq<char>, haystack: Seq<char>, group: nat) -> Option<
    Seq<char>,
>;

/// Whether `c` has the Unicode property `White_Space`, which is what
/// `str::trim` strips: the controls from tab to carriage return, the
/// space, next line, the no-break space, the Ogham space mark, the
/// spaces from en quad to hair space, the line and the paragraph
/// separator, and the narrow no-break, the medium mathematical and the
/// ideographic space.
pub open spec fn white_space(c: char) -> bool {
    let code = c as u32;
    ||| 0x0009 <= code <= 0x000D
    ||| code == 0x0020
    ||| code == 0x0085
    ||| code == 0x00A0
    ||| code == 0x1680
    ||| 0x2000 <= code <= 0x200A
    ||| code == 0x2028
    ||| code == 0x2029
    ||| code == 0x202F
    ||| code == 0x205F
    ||| code == 0x3000
}

/// The number of white-space characters at the front of `s`.
pub open spec fn leading_space(s: Seq<char>) -> nat
    decreases s.len(),
{
    if s.len() > 0 && white_space(s.first()) {
        1 + leading_space(s.drop_first())
    } else {
        0
    }
}

/// The number of white-space characters at the back of `s`.
pub open spec fn trailing_space(s: Seq<char>) -> nat
    decreases s.len(),
{
    if s.len() > 0 && white_space(s.last()) {
        1 + trailing_space(s.drop_last())
    } else {
        0
    }
}

/// `s` without the white space at its front and back.
pub open spec fn trimmed(s: Seq<char>) -> Seq<char> {
    let front = leading_space(s);
    if front == s.len() {
        Seq::empty()
    } else {
        s.subrange(front as int, s.len() - trailing_space(s))
    }
}

/// Whether `c` may stand in an identifier: the letters and digits of
/// ASCII, the underscore and the hyphen.
pub open spec fn id_char(c: char) -> bool {
    ||| 'a' <= c <= 'z'
    ||| 'A' <= c <= 'Z'
    ||| '0' <= c <= '9'
    ||| c == '_'
    ||| c == '-'
}

/// Whether `s` is an identifier: eleven characters, each of which may
/// stand in one.
pub open spec fn is_id(s: Seq<char>) -> bool {
    s.len() == ID_LENGTH && forall|i: int| 0 <= i < s.len() ==> id_char(#[trigger] s[i])
}

/// Whether `part` stands in `whole` in one piece.
pub open spec fn is_part_of(part: Seq<char>, whole: Seq<char>) -> bool {
    exists|from: int, to: int|
        0 <= from <= to <= whole.len() && part == #[trigger] whole.subrange(from, to)
}

/// The reading of a text that stands by itself: it is the identifier,
/// or it is nothing.
pub open spec fn bare_reading(text: Seq<char>) -> Result<Seq<char>, RejectionReason> {
    if is_id(text) {
        Ok(text)
    } else {
        Err(RejectionReason::Unparseable)
    }
}

/// The reading of a trimmed, non-empty text, given what the link
/// pattern captured in it. What was captured is the identifier; where
/// nothing was, or what was is no identifier, the text is read by
/// itself.
pub open spec fn reading(text: Seq<char>, capture: Option<Seq<char>>) -> Result<
    Seq<char>,
    RejectionReason,
> {
    match capture {
        Some(id) => if is_id(id) {
            Ok(id)
        } else {
            bare_reading(text)
        },
        None => bare_reading(text),
    }
}

/// The reading of a text as it was typed.
pub open spec fn resolution(input: Seq<char>) -> Result<Seq<char>, RejectionReason> {
    let text = trimmed(input);
    if text.len() == 0 {
        Err(RejectionReason::Empty)
    } else {
        reading(text, regex_capture(LINK_PATTERN@, text, 1))
    }
}

/// A text that may be missing, by its characters.
pub open spec fn text_of(found: Option<String>) -> Option<Seq<char>> {
    match found {
        Some(text) => Some(text@),
        None => None,
    }
}

/// An outcome as a reading: the identifier by its text.
pub open spec fn as_reading(outcome: Result<MediaId, RejectionReason>) -> Result<
    Seq<char>,
    RejectionReason,
> {
    match outcome {
        Ok(id) => Ok(id@),
        Err(reason) => Err(reason),
    }
}

/// `str::trim`: the slice of `s` that is left when the white space at
/// both ends is taken away.
#[verifier::external_body]
fn trim(s: &str) -> (inner: &str)
    ensures
        inner@ == trimmed(s@),
{
    s.trim()
}

/// `regex_lite::Regex::new` on `pattern`, then `Regex::captures` on
/// `haystack`, `Captures::get` for `group` and `Match::as_str`. Whether
/// the pattern is taken depends on the pattern alone, and the link
/// pattern of this library is; what is captured depends on the two texts
/// and the group number alone, and is a piece of the haystack.
#[verifier::external_body]
fn capture(pattern: &str, haystack: &str, group: usize) -> (found: Result<
    Option<String>,
    regex_lite::Error,
>)
    ensures
        found is Ok <==> regex_accepts(pattern@),
        pattern@ == LINK_PATTERN@ ==> found is Ok,
        found matches Ok(part) ==> text_of(part) == regex_capture(
            pattern@,
            haystack@,
            group as nat,
        ),
        found matches Ok(Some(text)) ==> is_part_of(text@, haystack@),
{
    match regex_lite::Regex::new(pattern) {
        Ok(re) => Ok(
            match re.captures(haystack) {
                Some(groups) => match groups.get(group) {
                    Some(part) => Some(part.as_str().to_string()),
                    None => None,
                },
                None => None,
            },
        ),
        Err(refusal) => Err(refusal),
    }
}

impl Clone for MediaId {
    /// A copy with the same text.
    fn clone(&self) -> (copy: MediaId)
        ensures
            copy@ == self@,
    {
        proof {
            use_type_invariant(self);
        }
        MediaId { text: self.text.clone() }
    }
}

impl MediaId {
    #[verifier::type_invariant]
    closed spec fn inv(&self) -> bool {
        is_id(self.text@)
    }

    /// The identifier as text.
    pub fn as_str(&self) -> (text: &str)
        ensures
            text@ == self@,
            is_id(self@),
    {
        proof {
            use_type_invariant(self);
        }
        self.text.as_str()
    }
}

/// Whether `c` may stand in an identifier.
pub fn is_id_char(c: char) -> (yes: bool)
    ensures
        yes == id_char(c),
{
    ('a' <= c && c <= 'z') || ('A' <= c && c <= 'Z') || ('0' <= c && c <= '9') || c == '_' || c
        == '-'
}

/// Whether `text` is an identifier.
pub fn bare_id(text: &str) -> (yes: bool)
    ensures
        yes == is_id(text@),
{
    if text.unicode_len() != ID_LENGTH {
        return false;
    }
    let mut i: usize = 0;
    while i < ID_LENGTH
        invariant
            i <= ID_LENGTH,
            text@.len() == ID_LENGTH,
            forall|j: int| 0 <= j < i ==> id_char(#[trigger] text@[j]),
        decreases ID_LENGTH - i,
    {
        if !is_id_char(text.get_char(i)) {
            return false;
        }
        i += 1;
    }
    true
}

/// The reading of the trimmed, non-empty `text`, where `capture` is what
/// the link pattern captured in it. Whatever comes back as an
/// identifier is one.
pub fn resolve_with(text: &str, capture: Option<String>) -> (outcome: Result<
    MediaId,
    RejectionReason,
>)
    ensures
        as_reading(outcome) == reading(text@, text_of(capture)),
        outcome matches Ok(id) ==> is_id(id@),
{
    match capture {
        Some(id) => {
            if bare_id(id.as_str()) {
                return Ok(MediaId { text: id });
            }
        },
        None => {},
    }
    if bare_id(text) {
        Ok(MediaId { text: String::from_str(text) })
    } else {
        Err(RejectionReason::Unparseable)
    }
}

/// Reads a video reference as the user typed it: a link in one of the
/// three known shapes, or an identifier by itself. An identifier that
/// comes back is a piece of what was typed.
pub fn resolve(input: &str) -> (outcome: Result<MediaId, RejectionReason>)
    ensures
        as_reading(outcome) == resolution(input@),
        outcome matches Ok(id) ==> is_id(id@) && is_part_of(id@, trimmed(input@)),
{
    let text = trim(input);
    if text.is_empty() {
        return Err(RejectionReason::Empty);
    }
    let found = match capture(LINK_PATTERN, text, 1) {
        Ok(part) => part,
        Err(_) => None,
    };
    proof {
        assert(text@ == text@.subrange(0, text@.len() as int));
        assert(is_part_of(text@, text@));
    }
    resolve_with(text, found)
}

/// The white space at the front of a text is just that: every
/// character in it is white space, and the one after it is not.
pub proof fn lemma_leading_space(s: Seq<char>)
    ensures
        leading_space(s) <= s.len(),
        forall|i: int| 0 <= i < leading_space(s) ==> white_space(#[trigger] s[i]),
        leading_space(s) < s.len() ==> !white_space(s[leading_space(s) as int]),
    decreases s.len(),
{
    if s.len() > 0 && white_space(s.first()) {
        let rest = s.drop_first();
        lemma_leading_space(rest);
        assert forall|i: int| 0 <= i < leading_space(s) implies white_space(#[trigger] s[i]) by {
            if i > 0 {
                assert(s[i] == rest[i - 1]);
            }
        }
        if leading_space(s) < s.len() {
            assert(s[leading_space(s) as int] == rest[leading_space(rest) as int]);
        }
    }
}

/// The white space at the back of a text is just that: every character
/// in it is white space, and the one before it is not.
pub proof fn lemma_trailing_space(s: Seq<char>)
    ensures
        trailing_space(s) <= s.len(),
        forall|i: int| s.len() - trailing_space(s) <= i < s.len() ==> white_space(#[trigger] s[i]),
        trailing_space(s) < s.len() ==> !white_space(s[s.len() - trailing_space(s) - 1]),
    decreases s.len(),
{
    if s.len() > 0 && white_space(s.last()) {
        let rest = s.drop_last();
        lemma_trailing_space(rest);
        assert forall|i: int| s.len() - trailing_space(s) <= i < s.len() implies white_space(
            #[trigger] s[i],
        ) by {
            if i < s.len() - 1 {
                assert(s[i] == rest[i]);
            }
        }
        if trailing_space(s) < s.len() {
            assert(s[s.len() - trailing_space(s) - 1] == rest[rest.len() - trailing_space(rest)
                - 1]);
        }
    }
}

/// Trimming leaves a text that neither begins nor ends with white space,
/// so trimming twice is trimming once, and a text without white space at
/// its ends is left as it is. White space around a video reference
/// therefore never changes how it is read.
pub proof fn law_trimmed(s: Seq<char>)
    ensures
        trimmed(s).len() <= s.len(),
        trimmed(s).len() > 0 ==> !white_space(trimmed(s).first()) && !white_space(
            trimmed(s).last(),
        ),
        s.len() > 0 && !white_space(s.first()) && !white_space(s.last()) ==> trimmed(s) == s,
        trimmed(trimmed(s)) == trimmed(s),
        resolution(trimmed(s)) == resolution(s),
{
    lemma_leading_space(s);
    lemma_trailing_space(s);
    let front = leading_space(s);
    let back = trailing_space(s);
    let t = trimmed(s);
    if front < s.len() {
        // the first character that is no white space stops the count from the back
        assert(front + back < s.len()) by {
            if front + back >= s.len() {
                assert(white_space(s[front as int]));
            }
        }
        assert(t.first() == s[front as int]);
        assert(t.last() == s[s.len() - back - 1]);
        assert(leading_space(t) == 0);
        assert(trailing_space(t) == 0);
        assert(trimmed(t) =~= t);
    } else {
        assert(trimmed(t) =~= t);
    }
    if s.len() > 0 && !white_space(s.first()) && !white_space(s.last()) {
        assert(trimmed(s) =~= s);
    }
}

/// Whatever a text is read as, it is an identifier or a rejection with
/// its reason: what comes back as an identifier has eleven characters of
/// the alphabet; a text is turned down as empty exactly when nothing is
/// left of it after trimming; and a trimmed text that is an identifier
/// by itself is never turned down.
pub proof fn law_resolution(input: Seq<char>)
    ensures
        resolution(input) matches Ok(id) ==> is_id(id),
        resolution(input) == Err::<Seq<char>, RejectionReason>(RejectionReason::Empty)
            <==> trimmed(input).len() == 0,
        is_id(trimmed(input)) ==> resolution(input) is Ok,
        is_id(trimmed(input)) && !(regex_capture(LINK_PATTERN@, trimmed(input), 1) matches Some(
            id,
        ) && is_id(id)) ==> resolution(input) == Ok::<Seq<char>, RejectionReason>(
            trimmed(input),
        ),
{
}

} // verus!
