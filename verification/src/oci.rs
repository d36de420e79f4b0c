//! Plain forms of a seed and of a snapshot's revision.

use vstd::prelude::*;

verus! {

/// An input that is not valid, and why.
#[derive(Debug)]
pub struct InvalidInput {
    pub message: String,
}

/// The lower blob that a seed stands for: the seed itself, which must not be
/// empty.
pub fn resolve_lower(seed: &str) -> (r: Result<String, InvalidInput>)
    ensures
        match r {
            Ok(lower) => seed@.len() > 0 && lower@ == seed@,
            Err(e) => seed@.len() == 0 && e.message@ == "empty seed ref"@,
        },
{
    if seed.is_empty() {
        return Err(InvalidInput { message: "empty seed ref".to_string() });
    }
    Ok(seed.to_string())
}

/// The revision of a volume that a snapshot stands for.
pub open spec fn revision(source_volume_id: Seq<char>, snapshot_name: Seq<char>) -> Seq<char> {
    source_volume_id + "@snap-"@ + snapshot_name
}

/// The revision of a volume that a snapshot stands for.
pub fn snapshot_ref(source_volume_id: &str, snapshot_name: &str) -> (r: String)
    ensures
        r@ == revision(source_volume_id@, snapshot_name@),
{
    source_volume_id.to_string().concat("@snap-").concat(snapshot_name)
}

/// Two snapshots of one volume have the same revision only if they have the
/// same name.
pub proof fn law_revisions_differ_by_name(id: Seq<char>, a: Seq<char>, b: Seq<char>)
    requires
        revision(id, a) == revision(id, b),
    ensures
        a == b,
{
    let n = (id + "@snap-"@).len() as int;
    assert(revision(id, a).skip(n) =~= a);
    assert(revision(id, b).skip(n) =~= b);
}

/// The revision of a snapshot is the volume's id and the snapshot's name, behind
/// `@snap-`.
pub proof fn law_revision(id: Seq<char>, name: Seq<char>)
    ensures
        revision(id, name) == id + "@snap-"@ + name,
{
}

/// A seed stands for itself unless it is empty, which is refused; the revision of
/// a snapshot is named by its volume and its name.
pub proof fn law_plain_forms(
    seed: &str,
    name: &str,
    r: Result<String, InvalidInput>,
    s: String,
)
    ensures
        call_ensures(resolve_lower, (seed,), r) ==> (r is Ok <==> seed@.len() > 0),
        call_ensures(resolve_lower, (seed,), r) ==> (r matches Ok(lower) ==> lower@ == seed@),
        call_ensures(resolve_lower, (seed,), r) ==> (r matches Err(e) ==> e.message@
            == "empty seed ref"@),
        call_ensures(snapshot_ref, (seed, name), s) ==> s@ == seed@ + "@snap-"@ + name@,
{
}

} // verus!
