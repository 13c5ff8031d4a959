//! The names of the files that belong to an image: the file that stores its
//! properties, the exported file, and the copy made when the image is cloned.
//!
//! Every name here is the name of a file inside its folder, without the folder.

use crate::image_info::{spec_extension, ImageType};
use vstd::prelude::*;
use vstd::string::*;

verus! {

/// The index of the last dot of a name, or -1 where the name has none.
pub open spec fn spec_last_dot(name: Seq<char>) -> int
    decreases name.len(),
{
    if name.len() == 0 {
        -1
    } else if name.last() == '.' {
        name.len() - 1
    } else {
        spec_last_dot(name.drop_last())
    }
}

/// The last dot is a dot, no dot follows it, and a name without one has none.
pub proof fn lemma_last_dot(name: Seq<char>)
    ensures
        -1 <= spec_last_dot(name) < name.len(),
        spec_last_dot(name) >= 0 ==> name[spec_last_dot(name)] == '.',
        forall|i: int| spec_last_dot(name) < i < name.len() ==> name[i] != '.',
    decreases name.len(),
{
    if name.len() > 0 && name.last() != '.' {
        let front = name.drop_last();
        lemma_last_dot(front);
        assert forall|i: int| spec_last_dot(name) < i < name.len() implies name[i] != '.' by {
            if i < front.len() {
                assert(front[i] == name[i]);
            }
        }
        if spec_last_dot(name) >= 0 {
            assert(front[spec_last_dot(front)] == name[spec_last_dot(name)]);
        }
    }
}

/// A name with its last dot turned into a hyphen, so that the name can carry a
/// new extension; a name without a dot is left as it is.
pub open spec fn spec_sanitized(name: Seq<char>) -> Seq<char> {
    let dot = spec_last_dot(name);
    if dot < 0 {
        name
    } else {
        name.subrange(0, dot) + seq!['-'] + name.subrange(dot + 1, name.len() as int)
    }
}

/// The name of the file that stores the properties of the image `name`.
pub open spec fn spec_properties_name(name: Seq<char>) -> Seq<char> {
    spec_sanitized(name) + ".prop"@
}

/// The name under which the image `name` is exported in `format`.
pub open spec fn spec_export_name(prefix: Seq<char>, name: Seq<char>, format: ImageType) -> Seq<
    char,
> {
    prefix + spec_sanitized(name) + seq!['.'] + spec_extension(format)
}

/// Whether a name has an extension: a dot that is not its first character.
pub open spec fn spec_has_extension(name: Seq<char>) -> bool {
    spec_last_dot(name) > 0
}

/// The part of a name before its last dot.
pub open spec fn spec_stem(name: Seq<char>) -> Seq<char> {
    name.subrange(0, spec_last_dot(name))
}

/// The part of a name after its last dot.
pub open spec fn spec_name_extension(name: Seq<char>) -> Seq<char> {
    name.subrange(spec_last_dot(name) + 1, name.len() as int)
}

/// `text` written `count` times in a row.
pub open spec fn spec_repeated(text: Seq<char>, count: nat) -> Seq<char>
    decreases count,
{
    if count == 0 {
        Seq::empty()
    } else {
        spec_repeated(text, (count - 1) as nat) + text
    }
}

/// The name of the `count`-th copy of a file: its stem, `-copy` once for each
/// copy, and its extension.
pub open spec fn spec_copy_name(stem: Seq<char>, extension: Seq<char>, count: nat) -> Seq<char> {
    stem + spec_repeated("-copy"@, count) + seq!['.'] + extension
}

/// The names tried for a clone of `name`, in order: the name itself, then the
/// name of the first copy, of the second, and so on. A name without an
/// extension has `-copy` written at its end.
pub open spec fn spec_candidate(name: Seq<char>, count: nat) -> Seq<char> {
    if count == 0 {
        name
    } else if spec_has_extension(name) {
        spec_copy_name(spec_stem(name), spec_name_extension(name), count)
    } else {
        name + spec_repeated("-copy"@, count)
    }
}

/// Whether `name` is one of `taken`.
pub open spec fn spec_taken(taken: Seq<String>, name: Seq<char>) -> bool {
    exists|i: int| 0 <= i < taken.len() && (#[trigger] taken[i])@ == name
}

/// The names in `taken`, each as its characters.
pub open spec fn spec_names(taken: Seq<String>) -> Seq<Seq<char>> {
    Seq::new(taken.len(), |i: int| taken[i]@)
}

/// A name is taken exactly when it is among the names.
pub proof fn lemma_names(taken: Seq<String>, name: Seq<char>)
    ensures
        spec_taken(taken, name) == spec_names(taken).contains(name),
{
    let names = spec_names(taken);
    if spec_taken(taken, name) {
        let i = choose|i: int| 0 <= i < taken.len() && (#[trigger] taken[i])@ == name;
        assert(names[i] == name);
    }
    if names.contains(name) {
        let i = choose|i: int| 0 <= i < names.len() && names[i] == name;
        assert(taken[i]@ == name);
    }
}

/// A text written `count` times is `count` times as long.
pub proof fn lemma_repeated_len(text: Seq<char>, count: nat)
    ensures
        spec_repeated(text, count).len() == count * text.len(),
    decreases count,
{
    if count > 0 {
        lemma_repeated_len(text, (count - 1) as nat);
        assert((count - 1) * text.len() + text.len() == count * text.len()) by (nonlinear_arith);
    } else {
        assert(count * text.len() == 0) by (nonlinear_arith)
            requires
                count == 0,
        ;
    }
}

/// The index of the last dot of `name`, if it has one.
fn last_dot(name: &str) -> (r: Option<usize>)
    ensures
        r is Some ==> r->0 == spec_last_dot(name@),
        r is None ==> spec_last_dot(name@) == -1,
{
    let length = name.unicode_len();
    let mut found: Option<usize> = None;
    let mut seen: usize = 0;
    proof {
        assert(name@.take(0) =~= Seq::<char>::empty());
    }
    for c in it: name.chars()
        invariant
            it.seq() == name@,
            length == name@.len(),
            seen == it.index(),
            found is Some ==> found->0 == spec_last_dot(name@.take(seen as int)),
            found is None ==> spec_last_dot(name@.take(seen as int)) == -1,
    {
        proof {
            let next = name@.take(seen + 1);
            assert(next.drop_last() =~= name@.take(seen as int));
            assert(next.last() == c);
        }
        if c == '.' {
            found = Some(seen);
        }
        seen = seen + 1;
    }
    proof {
        assert(name@.take(seen as int) =~= name@);
    }
    found
}

/// `name` with its last dot turned into a hyphen.
pub fn sanitized(name: &str) -> (r: String)
    ensures
        r@ == spec_sanitized(name@),
{
    match last_dot(name) {
        None => name.to_owned(),
        Some(dot) => {
            proof {
                lemma_last_dot(name@);
                reveal_strlit("-");
                assert("-"@ =~= seq!['-']);
            }
            let length = name.unicode_len();
            let mut out = name.substring_char(0, dot).to_owned();
            out.append("-");
            out.append(name.substring_char(dot + 1, length));
            out
        },
    }
}

/// The name of the file that stores the properties of the image `name`: the
/// sanitized name with the extension `prop`.
pub fn properties_name(name: &str) -> (r: String)
    ensures
        r@ == spec_properties_name(name@),
{
    let mut out = sanitized(name);
    out.append(".prop");
    out
}

/// The name under which the image `name` is exported: the prefix, the
/// sanitized name, and the extension of the export format.
pub fn export_name(prefix: &str, name: &str, format: ImageType) -> (r: String)
    ensures
        r@ == spec_export_name(prefix@, name@, format),
{
    proof {
        reveal_strlit(".");
        assert("."@ =~= seq!['.']);
    }
    let mut out = prefix.to_owned();
    out.append(sanitized(name).as_str());
    out.append(".");
    out.append(format.as_extension().as_str());
    out
}

/// Whether `name` has an extension.
pub fn has_extension(name: &str) -> (r: bool)
    ensures
        r == spec_has_extension(name@),
{
    match last_dot(name) {
        Some(dot) => dot > 0,
        None => false,
    }
}

/// The stem and the extension of a name, where it has an extension.
pub fn stem_and_extension(name: &str) -> (r: Option<(String, String)>)
    ensures
        r is Some == spec_has_extension(name@),
        r is Some ==> ({
            let parts = r->0;
            parts.0@ == spec_stem(name@) && parts.1@ == spec_name_extension(name@)
        }),
{
    match last_dot(name) {
        Some(dot) => {
            if dot > 0 {
                proof {
                    lemma_last_dot(name@);
                }
                let length = name.unicode_len();
                Some(
                    (
                        name.substring_char(0, dot).to_owned(),
                        name.substring_char(dot + 1, length).to_owned(),
                    ),
                )
            } else {
                None
            }
        },
        None => None,
    }
}

/// `start` with `-copy` written `count` times at its end.
fn with_copies(start: String, count: usize) -> (r: String)
    ensures
        r@ == start@ + spec_repeated("-copy"@, count as nat),
{
    let mut out = start;
    let mut written: usize = 0;
    proof {
        assert(out@ =~= start@ + spec_repeated("-copy"@, 0));
    }
    while written < count
        invariant
            0 <= written <= count,
            out@ == start@ + spec_repeated("-copy"@, written as nat),
        decreases count - written,
    {
        out.append("-copy");
        written = written + 1;
        proof {
            assert(spec_repeated("-copy"@, written as nat) == spec_repeated(
                "-copy"@,
                (written - 1) as nat,
            ) + "-copy"@);
            assert(out@ =~= start@ + spec_repeated("-copy"@, written as nat));
        }
    }
    out
}

/// The name of the `count`-th copy of a file with the given stem and
/// extension.
pub fn copy_name(stem: &str, extension: &str, count: usize) -> (r: String)
    ensures
        r@ == spec_copy_name(stem@, extension@, count as nat),
{
    proof {
        reveal_strlit(".");
        assert("."@ =~= seq!['.']);
    }
    let mut out = with_copies(stem.to_owned(), count);
    out.append(".");
    out.append(extension);
    out
}

/// The `count`-th name tried for a clone of `name`.
pub fn candidate(name: &str, count: usize) -> (r: String)
    ensures
        r@ == spec_candidate(name@, count as nat),
{
    if count == 0 {
        name.to_owned()
    } else {
        match stem_and_extension(name) {
            Some(parts) => copy_name(parts.0.as_str(), parts.1.as_str(), count),
            None => with_copies(name.to_owned(), count),
        }
    }
}

/// Whether `name` is one of `taken`.
pub fn is_taken(taken: &Vec<String>, name: &str) -> (r: bool)
    ensures
        r == spec_taken(taken@, name@),
{
    let mut i: usize = 0;
    while i < taken.len()
        invariant
            0 <= i <= taken.len(),
            forall|k: int| 0 <= k < i ==> (#[trigger] taken[k])@ != name@,
        decreases taken.len() - i,
    {
        if taken[i].as_str().eq(name) {
            return true;
        }
        i = i + 1;
    }
    false
}

/// The length of the longest of the names; zero without names.
pub open spec fn spec_longest(names: Seq<Seq<char>>) -> nat
    decreases names.len(),
{
    if names.len() == 0 {
        0
    } else {
        let before = spec_longest(names.drop_last());
        if names.last().len() > before {
            names.last().len()
        } else {
            before
        }
    }
}

/// None of the names is longer than the longest.
pub proof fn lemma_longest(names: Seq<Seq<char>>, name: Seq<char>)
    requires
        names.contains(name),
    ensures
        name.len() <= spec_longest(names),
    decreases names.len(),
{
    let i = choose|i: int| 0 <= i < names.len() && names[i] == name;
    if i < names.len() - 1 {
        let front = names.drop_last();
        assert(front[i] == names[i]);
        lemma_longest(front, name);
    }
}

/// Every candidate after the name itself is at least five characters longer
/// for each copy it says.
pub proof fn lemma_candidate_len(name: Seq<char>, count: nat)
    ensures
        spec_candidate(name, count).len() >= 5 * count,
{
    lemma_repeated_len("-copy"@, count);
    reveal_strlit("-copy");
    assert("-copy"@.len() == 5);
    assert(count * 5 == 5 * count) by (nonlinear_arith);
}

/// The number of the first candidate, from the `from`-th on, that is not among
/// the names. A candidate whose number is beyond the length of the longest
/// name is longer than every name, so the search ends there at the latest.
pub open spec fn spec_first_free(name: Seq<char>, names: Seq<Seq<char>>, from: nat) -> nat
    decreases spec_longest(names) + 1 - from,
{
    if from <= spec_longest(names) && names.contains(spec_candidate(name, from)) {
        spec_first_free(name, names, from + 1)
    } else {
        from
    }
}

/// The first free candidate is not among the names, and every candidate that
/// was passed over on the way to it is.
pub proof fn lemma_first_free(name: Seq<char>, names: Seq<Seq<char>>, from: nat)
    ensures
        from <= spec_first_free(name, names, from),
        !names.contains(spec_candidate(name, spec_first_free(name, names, from))),
        forall|count: nat|
            from <= count < spec_first_free(name, names, from) ==> names.contains(
                #[trigger] spec_candidate(name, count),
            ),
    decreases spec_longest(names) + 1 - from,
{
    if from <= spec_longest(names) && names.contains(spec_candidate(name, from)) {
        lemma_first_free(name, names, from + 1);
    } else if names.contains(spec_candidate(name, from)) {
        lemma_longest(names, spec_candidate(name, from));
        lemma_candidate_len(name, from);
    }
}

/// The name for a clone of `name` in a folder that holds `names`: the first of
/// the name itself, its first copy, its second copy and so on that is not
/// among the names.
pub open spec fn spec_clone_name(name: Seq<char>, names: Seq<Seq<char>>) -> Seq<char> {
    spec_candidate(name, spec_first_free(name, names, 0))
}

/// The names in a folder after `name` was cloned `clones` times in a row, each
/// clone under the name that was free when it was made.
pub open spec fn spec_folder_after(name: Seq<char>, names: Seq<Seq<char>>, clones: nat) -> Seq<
    Seq<char>,
>
    decreases clones,
{
    if clones == 0 {
        names
    } else {
        let before = spec_folder_after(name, names, (clones - 1) as nat);
        before.push(spec_clone_name(name, before))
    }
}

/// The name under which the clone after `earlier` clones is made.
pub open spec fn spec_nth_clone(name: Seq<char>, names: Seq<Seq<char>>, earlier: nat) -> Seq<
    char,
> {
    spec_clone_name(name, spec_folder_after(name, names, earlier))
}

/// A clone never gets a name that is in the folder.
pub proof fn lemma_clone_is_new(name: Seq<char>, names: Seq<Seq<char>>)
    ensures
        !names.contains(spec_clone_name(name, names)),
{
    lemma_first_free(name, names, 0);
}

/// What is in the folder stays there while clones are made, and so does every
/// clone.
pub proof fn lemma_folder_grows(
    name: Seq<char>,
    names: Seq<Seq<char>>,
    earlier: nat,
    later: nat,
)
    requires
        earlier <= later,
    ensures
        forall|held: Seq<char>|
            spec_folder_after(name, names, earlier).contains(held) ==> spec_folder_after(
                name,
                names,
                later,
            ).contains(held),
        earlier < later ==> spec_folder_after(name, names, later).contains(
            spec_nth_clone(name, names, earlier),
        ),
    decreases later,
{
    if earlier < later {
        let before = spec_folder_after(name, names, (later - 1) as nat);
        let after = spec_folder_after(name, names, later);
        let made = spec_clone_name(name, before);
        lemma_folder_grows(name, names, earlier, (later - 1) as nat);
        assert(after == before.push(made));
        assert forall|held: Seq<char>| before.contains(held) implies after.contains(held) by {
            let i = choose|i: int| 0 <= i < before.len() && before[i] == held;
            assert(after[i] == held);
        }
        assert(after[before.len() as int] == made);
        if earlier == later - 1 {
            assert(after.contains(made));
        }
    }
}

/// However often an image is cloned, and whatever its name and the names in
/// its folder: no clone gets a name that was in the folder before it was
/// made, and no two clones get the same name.
pub proof fn lemma_repeated_clones(
    name: Seq<char>,
    names: Seq<Seq<char>>,
    first: nat,
    second: nat,
)
    requires
        first < second,
    ensures
        !spec_folder_after(name, names, first).contains(spec_nth_clone(name, names, first)),
        !names.contains(spec_nth_clone(name, names, first)),
        spec_nth_clone(name, names, first) != spec_nth_clone(name, names, second),
{
    lemma_clone_is_new(name, spec_folder_after(name, names, first));
    lemma_clone_is_new(name, spec_folder_after(name, names, second));
    lemma_folder_grows(name, names, 0, first);
    lemma_folder_grows(name, names, first, second);
}

/// The name for a clone of the image `name`, given the names that are taken in
/// its folder: the first of the name itself, its first copy, its second copy
/// and so on that is not taken. The name that is returned is never taken.
pub fn clone_name(name: &str, taken: &Vec<String>) -> (r: String)
    ensures
        r@ == spec_clone_name(name@, spec_names(taken@)),
        !spec_taken(taken@, r@),
{
    let ghost names = spec_names(taken@);
    let mut count: usize = 0;
    loop
        invariant
            names == spec_names(taken@),
            spec_first_free(name@, names, 0) == spec_first_free(name@, names, count as nat),
            count <= spec_longest(names) + 1,
        decreases spec_longest(names) + 1 - count,
    {
        let tried = candidate(name, count);
        proof {
            lemma_names(taken@, tried@);
        }
        if !is_taken(taken, tried.as_str()) {
            return tried;
        }
        let length = tried.as_str().unicode_len();
        proof {
            lemma_longest(names, tried@);
            lemma_candidate_len(name@, count as nat);
        }
        count = count + 1;
    }
}

/// What is done about the file that stores an image's properties before it is
/// read or written.
#[derive(Clone, Copy, Debug, PartialEq, Eq, Structural)]
pub enum SidecarStep {
    /// The file is used where it is, or does not exist yet.
    Keep,
    /// The file lies under its earlier name: it is copied to the present name
    /// and the earlier file is removed.
    MoveEarlier,
}

/// The name under which the properties of the image `name` were stored
/// earlier: the name with `prop` in place of its extension.
pub open spec fn spec_earlier_properties_name(name: Seq<char>) -> Seq<char> {
    if spec_has_extension(name) {
        spec_stem(name) + ".prop"@
    } else {
        name + ".prop"@
    }
}

/// The name under which the properties of the image `name` were stored
/// earlier.
pub fn earlier_properties_name(name: &str) -> (r: String)
    ensures
        r@ == spec_earlier_properties_name(name@),
{
    let mut out = match stem_and_extension(name) {
        Some(parts) => parts.0,
        None => name.to_owned(),
    };
    out.append(".prop");
    out
}

/// What is done about the stored properties: a file under the present name is
/// kept; else one under the earlier name is moved; else there is nothing to do.
pub fn sidecar_step(present_exists: bool, earlier_exists: bool) -> (r: SidecarStep)
    ensures
        r == if !present_exists && earlier_exists {
            SidecarStep::MoveEarlier
        } else {
            SidecarStep::Keep
        },
{
    if !present_exists && earlier_exists {
        SidecarStep::MoveEarlier
    } else {
        SidecarStep::Keep
    }
}

} // verus!
