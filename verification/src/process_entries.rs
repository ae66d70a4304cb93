use crate::channel::send_path;
use crate::pattern::regex_match;
use crate::pattern::CompiledMatcher;
use vstd::prelude::*;

verus! {

#[verifier::external_type_specification]
#[verifier::external_body]
pub struct ExDirEntry(ignore::DirEntry);

#[verifier::external_type_specification]
#[verifier::external_body]
pub struct ExWalkState(ignore::WalkState);

/// The raw platform bytes of a value's full path, carried end-to-end
/// without any text-validity assumption.
pub trait AsBytes {
    fn as_true_bytes(&self) -> Vec<u8>;
}

/// The raw platform bytes of a value's final path component.
pub trait FileNameBytes {
    fn filename_bytes(&self) -> Vec<u8>;
}

/// Relies on `ignore::DirEntry::path`: the entry's full path, handed on
/// as its raw bytes.
#[verifier::external_body]
fn entry_path_bytes(e: &ignore::DirEntry) -> Vec<u8> {
    e.path().as_os_str().as_encoded_bytes().to_vec()
}

/// Relies on `ignore::DirEntry::file_name`: the entry's final path
/// component, handed on as its raw bytes.
#[verifier::external_body]
fn entry_file_name_bytes(e: &ignore::DirEntry) -> Vec<u8> {
    e.file_name().as_encoded_bytes().to_vec()
}

impl AsBytes for ignore::DirEntry {
    fn as_true_bytes(&self) -> Vec<u8> {
        entry_path_bytes(self)
    }
}

impl FileNameBytes for ignore::DirEntry {
    fn filename_bytes(&self) -> Vec<u8> {
        entry_file_name_bytes(self)
    }
}

/// Relies on `ignore::DirEntry::depth`: the number of path segments
/// between the search root and this entry.
#[verifier::external_body]
pub(crate) fn entry_depth(e: &ignore::DirEntry) -> usize {
    e.depth()
}

/// Relies on `ignore::DirEntry::file_type` and `FileType::is_dir`:
/// whether the entry is a directory; an entry without a type (standard
/// input) is not one.
#[verifier::external_body]
pub(crate) fn entry_is_dir(e: &ignore::DirEntry) -> bool {
    e.file_type().is_some_and(|filetype| filetype.is_dir())
}

/// Relies on `ignore::DirEntry::path`: the entry's path as text for
/// comparison against the avoid set, bytes that are not valid text
/// replaced; the replacement character occurs in no avoid-set member, so
/// the comparison is unaffected.
#[verifier::external_body]
pub(crate) fn entry_path_string(e: &ignore::DirEntry) -> String {
    e.path().to_string_lossy().into_owned()
}

/// Relies on `ignore::WalkState::Continue`: the walker goes on descending.
#[verifier::external_body]
pub(crate) fn walk_state_continue() -> ignore::WalkState {
    ignore::WalkState::Continue
}

/// Relies on `ignore::WalkState::Skip`: the walker stops this branch.
#[verifier::external_body]
pub(crate) fn walk_state_skip() -> ignore::WalkState {
    ignore::WalkState::Skip
}

/// Whether an entry with the given match target is emitted: always under
/// the sentinel (no matcher), else exactly when the compiled pattern
/// matches the target bytes.
pub open spec fn spec_should_emit(m: Option<CompiledMatcher>, target: Seq<u8>) -> bool {
    match m {
        None => true,
        Some(c) => regex_match(c.spec_pattern(), c.spec_case_insensitive(), target),
    }
}

/// The match decision for one entry.
pub fn should_emit(matcher: &Option<CompiledMatcher>, target: &Vec<u8>) -> (r: bool)
    ensures
        r == spec_should_emit(*matcher, target@),
{
    match matcher {
        None => true,
        Some(m) => m.is_match(target.as_slice()),
    }
}

/// The directory policy: directories are discarded before any matching
/// unless they were explicitly requested; everything else goes on to the
/// matcher.
pub fn survives_dir_policy(keep_dirs: bool, is_dir: bool) -> (r: bool)
    ensures
        r == (keep_dirs || !is_dir),
{
    keep_dirs || !is_dir
}

/// The bytes an entry is matched against: the whole path in full-path
/// mode, only the final path component otherwise.
pub open spec fn spec_match_target(use_full_path: bool, full: Seq<u8>, name: Seq<u8>) -> Seq<u8> {
    if use_full_path {
        full
    } else {
        name
    }
}

/// Whether one visited entry is emitted, over the whole per-entry
/// pipeline: it must survive the directory policy, and its mode's target
/// must satisfy the matcher (or the sentinel must be active).
pub open spec fn spec_entry_emitted(
    keep_dirs: bool,
    is_dir: bool,
    m: Option<CompiledMatcher>,
    use_full_path: bool,
    full: Seq<u8>,
    name: Seq<u8>,
) -> bool {
    (keep_dirs || !is_dir) && spec_should_emit(m, spec_match_target(use_full_path, full, name))
}

/// What became of one visited entry: not emitted, sent to the consumer,
/// or dropped because the consumer has already gone away. The last is the
/// cooperative stop signal for the branch that saw it.
#[derive(Debug)]
pub enum EntryOutcome {
    NotEmitted,
    Sent,
    ConsumerGone,
}

/// Processes one entry in full-path mode: the full path's raw bytes are
/// the match target, and they are what is sent on a match. Whether a sent
/// path arrived depends on the consumer alone.
pub fn process_entry_fullpath(
    full: Vec<u8>,
    re: &Option<CompiledMatcher>,
    tx: &std::sync::mpsc::Sender<Vec<u8>>,
) -> (r: EntryOutcome)
    ensures
        (r is NotEmitted) <==> !spec_should_emit(*re, full@),
{
    if should_emit(re, &full) {
        if send_path(tx, full) {
            EntryOutcome::Sent
        } else {
            EntryOutcome::ConsumerGone
        }
    } else {
        EntryOutcome::NotEmitted
    }
}

/// Processes one entry in short-path mode: only the final path component
/// `name` is the match target, but the full path is what is sent on a
/// match.
pub fn process_entry_shortpath(
    full: Vec<u8>,
    name: Vec<u8>,
    re: &Option<CompiledMatcher>,
    tx: &std::sync::mpsc::Sender<Vec<u8>>,
) -> (r: EntryOutcome)
    ensures
        (r is NotEmitted) <==> !spec_should_emit(*re, name@),
{
    if should_emit(re, &name) {
        if send_path(tx, full) {
            EntryOutcome::Sent
        } else {
            EntryOutcome::ConsumerGone
        }
    } else {
        EntryOutcome::NotEmitted
    }
}

/// Under the sentinel pattern there is no compiled matcher and every
/// entry is accepted, whatever its bytes.
pub proof fn lemma_sentinel_accepts_all(target: Seq<u8>)
    ensures
        spec_should_emit(None::<CompiledMatcher>, target),
{
}

/// Under the sentinel pattern the per-entry pipeline emits exactly the
/// entries that survive the directory policy: every non-directory, and
/// directories only when they were requested — whatever the entry's
/// bytes and whatever the mode.
pub proof fn lemma_sentinel_emits_non_directories(
    keep_dirs: bool,
    is_dir: bool,
    use_full_path: bool,
    full: Seq<u8>,
    name: Seq<u8>,
)
    ensures
        spec_entry_emitted(keep_dirs, is_dir, None::<CompiledMatcher>, use_full_path, full, name)
            == (keep_dirs || !is_dir),
{
}

/// With a compiled matcher present, an entry that survives the directory
/// policy is emitted exactly when the regex accepts its mode's target:
/// the whole path in full-path mode, the final component otherwise.
pub proof fn lemma_emit_matches_mode_target(
    m: CompiledMatcher,
    keep_dirs: bool,
    is_dir: bool,
    use_full_path: bool,
    full: Seq<u8>,
    name: Seq<u8>,
)
    requires
        keep_dirs || !is_dir,
    ensures
        spec_entry_emitted(keep_dirs, is_dir, Some(m), use_full_path, full, name) == regex_match(
            m.spec_pattern(),
            m.spec_case_insensitive(),
            if use_full_path {
                full
            } else {
                name
            },
        ),
{
}

/// The match decision is a function of the target bytes alone: two
/// entries with equal targets get the same verdict.
pub proof fn lemma_emit_function_of_target(
    m: Option<CompiledMatcher>,
    t1: Seq<u8>,
    t2: Seq<u8>,
)
    requires
        t1 == t2,
    ensures
        spec_should_emit(m, t1) == spec_should_emit(m, t2),
{
}

/// Two matchers compiled from the same pattern text and flag give the
/// same verdict on every target: repeated runs over an unchanged tree
/// emit the same set of paths.
pub proof fn lemma_same_pattern_same_verdict(
    a: CompiledMatcher,
    b: CompiledMatcher,
    target: Seq<u8>,
)
    requires
        a.spec_pattern() == b.spec_pattern(),
        a.spec_case_insensitive() == b.spec_case_insensitive(),
    ensures
        spec_should_emit(Some(a), target) == spec_should_emit(Some(b), target),
{
}

} // verus!
