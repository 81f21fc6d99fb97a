use vstd::prelude::*;
use vstd::string::*;

verus! {

/// The tags of the opcodes that difflib's `SequenceMatcher` gives for the
/// bytes of two texts, in order.
pub uninterp spec fn diff_tags(current: Seq<char>, revised: Seq<char>) -> Seq<Seq<char>>;

/// Relies on difflib's `SequenceMatcher::get_opcodes`, compared byte by byte:
/// the tag of each opcode, in order.
#[verifier::external_body]
fn opcode_tags(current: &str, revised: &str) -> (r: Vec<String>)
    ensures
        r.deep_view() == diff_tags(current@, revised@),
{
    let mut matcher = difflib::sequencematcher::SequenceMatcher::<u8>::new(current, revised);
    matcher.get_opcodes().into_iter().map(|o| o.tag).collect()
}

/// The number of tags in `tags` other than `equal`.
pub open spec fn count_changed(tags: Seq<Seq<char>>) -> nat
    decreases tags.len(),
{
    if tags.len() == 0 {
        0
    } else {
        count_changed(tags.drop_last()) + if tags.last() != "equal"@ {
            1nat
        } else {
            0nat
        }
    }
}

proof fn lemma_count_changed_bound(tags: Seq<Seq<char>>)
    ensures
        count_changed(tags) <= tags.len(),
    decreases tags.len(),
{
    if tags.len() > 0 {
        lemma_count_changed_bound(tags.drop_last());
    }
}

/// The number of spans of a diff that are not `equal`.
pub fn changed_span_count(tags: &Vec<String>) -> (r: usize)
    ensures
        r == count_changed(tags.deep_view()),
{
    let equal = String::from_str("equal");
    let mut n: usize = 0;
    let mut i: usize = 0;
    while i < tags.len()
        invariant
            i <= tags@.len(),
            equal@ == "equal"@,
            n == count_changed(tags.deep_view().subrange(0, i as int)),
        decreases tags@.len() - i,
    {
        proof {
            let s = tags.deep_view().subrange(0, i + 1);
            assert(s.drop_last() =~= tags.deep_view().subrange(0, i as int));
            assert(s.last() == tags.deep_view()[i as int]);
            assert(tags.deep_view()[i as int] == tags@[i as int]@);
            lemma_count_changed_bound(tags.deep_view().subrange(0, i as int));
        }
        let same = tags[i].eq(&equal);
        if !same {
            n = n + 1;
        }
        i = i + 1;
    }
    proof {
        assert(tags.deep_view().subrange(0, tags@.len() as int) =~= tags.deep_view());
    }
    n
}

/// The number of changed spans between two profile texts.
pub open spec fn changed_spans_spec(current: Seq<char>, revised: Seq<char>) -> nat {
    count_changed(diff_tags(current, revised))
}

/// The number of spans that differ between `current` and `revised`.
pub fn changed_spans(current: &str, revised: &str) -> (r: usize)
    ensures
        r == changed_spans_spec(current@, revised@),
{
    let tags = opcode_tags(current, revised);
    changed_span_count(&tags)
}

/// Above this many changed spans a revision is rolled back.
pub const ROLLBACK_THRESHOLD: usize = 200;

/// What is written to the profile after a revision.
#[derive(Debug, PartialEq, Eq)]
pub enum ProfileWrite {
    /// The revised text.
    Revision(String),
    /// The content of the backup profile.
    Backup,
}

/// The write that a revision with `spans` changed spans leads to.
pub open spec fn profile_write_for(spans: int, revised: Seq<char>) -> (bool, Seq<char>) {
    if spans > ROLLBACK_THRESHOLD {
        (true, Seq::empty())
    } else {
        (false, revised)
    }
}

/// The write as a pair: whether the backup is restored, and the revised text
/// otherwise.
pub open spec fn write_view(w: ProfileWrite) -> (bool, Seq<char>) {
    match w {
        ProfileWrite::Revision(t) => (false, t@),
        ProfileWrite::Backup => (true, Seq::empty()),
    }
}

/// Keeps `revised` when it differs from the current profile in at most
/// `ROLLBACK_THRESHOLD` spans, else restores the backup.
pub fn choose_profile_write(spans: usize, revised: String) -> (r: ProfileWrite)
    ensures
        write_view(r) == profile_write_for(spans as int, revised@),
        spans <= ROLLBACK_THRESHOLD ==> r == ProfileWrite::Revision(revised),
        spans > ROLLBACK_THRESHOLD ==> r == ProfileWrite::Backup,
{
    if spans > ROLLBACK_THRESHOLD {
        ProfileWrite::Backup
    } else {
        ProfileWrite::Revision(revised)
    }
}

/// Decides what replaces the current profile once the service has sent
/// `revised`.
pub fn reconcile(current: &str, revised: String) -> (r: ProfileWrite)
    ensures
        write_view(r) == profile_write_for(changed_spans_spec(current@, revised@) as int, revised@),
{
    let spans = changed_spans(current, revised.as_str());
    choose_profile_write(spans, revised)
}

/// The text that the profile holds after a write, given the backup's content.
pub open spec fn content_after(w: (bool, Seq<char>), backup: Seq<char>) -> Seq<char> {
    if w.0 {
        backup
    } else {
        w.1
    }
}

/// The text that a profile write puts into the profile, given the backup's
/// content.
pub fn written_content(w: ProfileWrite, backup: String) -> (r: String)
    ensures
        r@ == content_after(write_view(w), backup@),
{
    match w {
        ProfileWrite::Revision(t) => t,
        ProfileWrite::Backup => backup,
    }
}

/// A revision that differs from the current document `current` in `k` spans
/// replaces it when `k` is at most the threshold (so exactly the threshold
/// still accepts), and the backup replaces it when `k` is above.
pub proof fn law_rollback_threshold(current: Seq<char>, revised: Seq<char>, backup: Seq<char>)
    ensures
        changed_spans_spec(current, revised) <= ROLLBACK_THRESHOLD ==> content_after(
            profile_write_for(changed_spans_spec(current, revised) as int, revised),
            backup,
        ) == revised,
        changed_spans_spec(current, revised) > ROLLBACK_THRESHOLD ==> content_after(
            profile_write_for(changed_spans_spec(current, revised) as int, revised),
            backup,
        ) == backup,
{
}

} // verus!
