//! Text matching on accessibility labels: case-insensitive alias search,
//! exact title comparison, the share-button rule and the text lines of the
//! tree listing.

use vstd::prelude::*;

verus! {

/// What `str::to_lowercase` gives for a text: the full Unicode lower-case
/// mapping, which depends on the text alone.
pub uninterp spec fn lowercase(text: Seq<char>) -> Seq<char>;

/// Wraps `str::to_lowercase`; its result is named [`lowercase`].
#[verifier::external_body]
fn to_lowercase(text: &str) -> (lower: String)
    ensures
        lower@ == lowercase(text@),
{
    text.to_lowercase()
}

/// The characters of `text`, in order.
pub fn chars_of(text: &str) -> (res: Vec<char>)
    ensures
        res@ == text@,
{
    broadcast use vstd::string::group_string_axioms;

    let mut res: Vec<char> = Vec::new();
    for c in it: text.chars()
        invariant
            res@ == it.seq().take(it.index() as int),
    {
        res.push(c);
    }
    res
}

/// `needle` occurs in `haystack` at position `at`.
pub open spec fn occurs_at(needle: Seq<char>, haystack: Seq<char>, at: int) -> bool {
    &&& 0 <= at
    &&& at + needle.len() <= haystack.len()
    &&& haystack.subrange(at, at + needle.len()) == needle
}

/// `needle` occurs somewhere in `haystack` (the empty text occurs everywhere).
pub open spec fn is_substring(needle: Seq<char>, haystack: Seq<char>) -> bool {
    exists|at: int| occurs_at(needle, haystack, at)
}

/// Whether `needle` occurs in `haystack` at position `at`.
fn matches_at(needle: &Vec<char>, haystack: &Vec<char>, at: usize) -> (res: bool)
    requires
        at <= haystack@.len(),
    ensures
        res == occurs_at(needle@, haystack@, at as int),
{
    if needle.len() > haystack.len() - at {
        return false;
    }
    let n: usize = haystack.len();
    let mut i: usize = 0;
    while i < needle.len()
        invariant
            n == haystack@.len(),
            at + needle@.len() <= haystack@.len(),
            i <= needle@.len(),
            forall|j: int| 0 <= j < i ==> haystack@[at + j] == needle@[j],
        decreases needle@.len() - i,
    {
        assert(at + i < n);
        if haystack[at + i] != needle[i] {
            assert(haystack@.subrange(at as int, at + needle@.len())[i as int] != needle@[i as int]);
            return false;
        }
        i = i + 1;
    }
    assert(haystack@.subrange(at as int, at + needle@.len()) =~= needle@);
    true
}

/// Whether `needle` occurs in `haystack`.
pub fn contains_chars(haystack: &Vec<char>, needle: &Vec<char>) -> (res: bool)
    ensures
        res == is_substring(needle@, haystack@),
{
    let mut at: usize = 0;
    while at < haystack.len()
        invariant
            at <= haystack@.len(),
            forall|k: int| 0 <= k < at ==> !occurs_at(needle@, haystack@, k),
        decreases haystack@.len() - at,
    {
        if matches_at(needle, haystack, at) {
            return true;
        }
        at = at + 1;
    }
    if matches_at(needle, haystack, at) {
        return true;
    }
    assert forall|k: int| !occurs_at(needle@, haystack@, k) by {
        if 0 <= k && k + needle@.len() <= haystack@.len() {
            assert(k <= at);
        }
    }
    false
}

/// Whether two texts are the same.
pub fn same_text(a: &str, b: &str) -> (res: bool)
    ensures
        res == (a@ == b@),
{
    let x = chars_of(a);
    let y = chars_of(b);
    if x.len() != y.len() {
        return false;
    }
    let mut i: usize = 0;
    while i < x.len()
        invariant
            x@ == a@,
            y@ == b@,
            x@.len() == y@.len(),
            i <= x@.len(),
            forall|j: int| 0 <= j < i ==> x@[j] == y@[j],
        decreases x@.len() - i,
    {
        if x[i] != y[i] {
            assert(x@[i as int] != y@[i as int]);
            return false;
        }
        i = i + 1;
    }
    assert(x@ =~= y@);
    true
}

/// Whether `text` begins with `prefix`.
pub fn starts_with(text: &str, prefix: &str) -> (res: bool)
    ensures
        res == prefix@.is_prefix_of(text@),
{
    let x = chars_of(text);
    let p = chars_of(prefix);
    if p.len() > x.len() {
        return false;
    }
    let mut i: usize = 0;
    while i < p.len()
        invariant
            x@ == text@,
            p@ == prefix@,
            p@.len() <= x@.len(),
            i <= p@.len(),
            forall|j: int| 0 <= j < i ==> x@[j] == p@[j],
        decreases p@.len() - i,
    {
        if x[i] != p[i] {
            assert(text@[i as int] != prefix@[i as int]);
            return false;
        }
        i = i + 1;
    }
    true
}

/// Some alias, lower-cased, occurs in the lower-cased text.
pub open spec fn spec_contains_alias(text: Seq<char>, aliases: Seq<Seq<char>>) -> bool {
    exists|i: int| 0 <= i < aliases.len() && is_substring(lowercase(aliases[i]), lowercase(text))
}

/// The views of a list of string slices.
pub open spec fn texts(list: Seq<&str>) -> Seq<Seq<char>> {
    list.map_values(|s: &str| s@)
}

/// Whether the text contains one of the aliases, ignoring case: both sides
/// are lower-cased and an alias may occur anywhere in the text.
pub fn contains_alias(text: &str, aliases: &[&str]) -> (res: bool)
    ensures
        res == spec_contains_alias(text@, texts(aliases@)),
{
    let normalized = to_lowercase(text);
    let haystack = chars_of(normalized.as_str());
    let mut i: usize = 0;
    while i < aliases.len()
        invariant
            haystack@ == lowercase(text@),
            i <= aliases@.len(),
            forall|j: int|
                0 <= j < i ==> !is_substring(lowercase(#[trigger] aliases@[j]@), lowercase(text@)),
        decreases aliases@.len() - i,
    {
        let lower = to_lowercase(aliases[i]);
        let needle = chars_of(lower.as_str());
        if contains_chars(&haystack, &needle) {
            assert(texts(aliases@)[i as int] == aliases@[i as int]@);
            return true;
        }
        i = i + 1;
    }
    assert forall|j: int| 0 <= j < texts(aliases@).len() implies !is_substring(
        lowercase(texts(aliases@)[j]),
        lowercase(text@),
    ) by {
        assert(texts(aliases@)[j] == aliases@[j]@);
    }
    false
}

/// The lower-cased title equals some lower-cased alias.
pub open spec fn spec_title_matches(title: Seq<char>, aliases: Seq<Seq<char>>) -> bool {
    exists|i: int| 0 <= i < aliases.len() && lowercase(aliases[i]) == lowercase(title)
}

/// Whether the title is one of the aliases, ignoring case (a whole-title
/// comparison, unlike [`contains_alias`]).
pub fn title_matches(title: &str, aliases: &[&str]) -> (res: bool)
    ensures
        res == spec_title_matches(title@, texts(aliases@)),
{
    let lower_title = to_lowercase(title);
    let mut i: usize = 0;
    while i < aliases.len()
        invariant
            lower_title@ == lowercase(title@),
            i <= aliases@.len(),
            forall|j: int|
                0 <= j < i ==> lowercase(#[trigger] aliases@[j]@) != lowercase(title@),
        decreases aliases@.len() - i,
    {
        let lower = to_lowercase(aliases[i]);
        if same_text(lower.as_str(), lower_title.as_str()) {
            assert(texts(aliases@)[i as int] == aliases@[i as int]@);
            return true;
        }
        i = i + 1;
    }
    assert forall|j: int| 0 <= j < texts(aliases@).len() implies lowercase(texts(aliases@)[j])
        != lowercase(title@) by {
        assert(texts(aliases@)[j] == aliases@[j]@);
    }
    false
}

/// The lower-cased title names the share action of the share dialog, in
/// English or Portuguese: exactly "share", "partilhar" or "compartilhar", or
/// one of them followed by " -" and more text.
pub open spec fn spec_is_share_action(title: Seq<char>) -> bool {
    let t = lowercase(title);
    ||| t == "share"@
    ||| t == "partilhar"@
    ||| t == "compartilhar"@
    ||| "share -"@.is_prefix_of(t)
    ||| "partilhar -"@.is_prefix_of(t)
    ||| "compartilhar -"@.is_prefix_of(t)
}

/// Whether a title names the share action (see [`spec_is_share_action`]).
pub fn is_share_action(title: &str) -> (res: bool)
    ensures
        res == spec_is_share_action(title@),
{
    let lower = to_lowercase(title);
    let t = lower.as_str();
    same_text(t, "share") || same_text(t, "partilhar") || same_text(t, "compartilhar")
        || starts_with(t, "share -") || starts_with(t, "partilhar -") || starts_with(
        t,
        "compartilhar -",
    )
}

/// Whether an element with this role and title is the button that confirms
/// a share: a button whose title names the share action.
pub fn is_share_button(role: &str, title: &str) -> (res: bool)
    ensures
        res == (role@ == "AXButton"@ && spec_is_share_action(title@)),
{
    same_text(role, "AXButton") && is_share_action(title)
}

/// Whether a window with this title is the pop-up menu of the microphone
/// button (a window without a title has the empty title).
pub fn is_menu_window(title: &str) -> (res: bool)
    ensures
        res == (title@ == "Menu window"@),
{
    same_text(title, "Menu window")
}

/// Whether a window with this title is the meeting window, in Portuguese or
/// English.
pub fn is_meeting_window(title: &str) -> (res: bool)
    ensures
        res == (title@ == "Reunião Zoom"@ || title@ == "Zoom Meeting"@),
{
    same_text(title, "Reunião Zoom") || same_text(title, "Zoom Meeting")
}

/// The parts joined, with `separator` between each two of them.
pub open spec fn joined(parts: Seq<Seq<char>>, separator: Seq<char>) -> Seq<char>
    decreases parts.len(),
{
    if parts.len() == 0 {
        Seq::empty()
    } else if parts.len() == 1 {
        parts[0]
    } else {
        joined(parts.drop_last(), separator) + separator + parts.last()
    }
}

/// The views of a list of strings.
pub open spec fn string_texts(list: Seq<String>) -> Seq<Seq<char>> {
    list.map_values(|s: String| s@)
}

/// The text by which an element is searched: its labels that are present
/// (title, description, value, help), joined by " | ".
pub fn searchable_text(labels: &Vec<String>) -> (res: String)
    ensures
        res@ == joined(string_texts(labels@), " | "@),
{
    let mut res = String::new();
    let mut i: usize = 0;
    while i < labels.len()
        invariant
            i <= labels@.len(),
            res@ == joined(string_texts(labels@).take(i as int), " | "@),
        decreases labels@.len() - i,
    {
        let ghost before = res@;
        if i != 0 {
            res.append(" | ");
        }
        res.append(labels[i].as_str());
        proof {
            let parts = string_texts(labels@);
            assert(parts.take(i + 1).drop_last() =~= parts.take(i as int));
            assert(parts.take(i + 1).last() == labels@[i as int]@);
            if i == 0 {
                assert(before =~= Seq::<char>::empty());
                assert(res@ =~= parts.take(1)[0]);
            }
        }
        i = i + 1;
    }
    assert(string_texts(labels@).take(labels@.len() as int) =~= string_texts(labels@));
    res
}

/// Two spaces for each level of depth.
pub open spec fn indentation(depth: nat) -> Seq<char> {
    Seq::new(2 * depth, |i: int| ' ')
}

/// One line of the tree listing: the element's role and searchable text,
/// indented by its depth.
pub fn tree_line(depth: usize, role: &str, text: &str) -> (line: String)
    ensures
        line@ == indentation(depth as nat) + role@ + ": "@ + text@,
{
    let mut line = String::new();
    let mut i: usize = 0;
    while i < depth
        invariant
            i <= depth,
            line@ == indentation(i as nat),
        decreases depth - i,
    {
        line.append("  ");
        proof {
            reveal_strlit("  ");
            assert(line@ =~= indentation((i + 1) as nat));
        }
        i = i + 1;
    }
    line.append(role);
    line.append(": ");
    line.append(text);
    line
}

/// A title that is one of the aliases also contains one: the exact-title
/// match is the stricter of the two comparisons.
pub proof fn exact_title_is_contained(title: Seq<char>, aliases: Seq<Seq<char>>)
    requires
        spec_title_matches(title, aliases),
    ensures
        spec_contains_alias(title, aliases),
{
    let i = choose|i: int| 0 <= i < aliases.len() && lowercase(aliases[i]) == lowercase(title);
    let t = lowercase(title);
    assert(t.subrange(0, t.len() as int) =~= t);
    assert(occurs_at(lowercase(aliases[i]), t, 0));
}

} // verus!
