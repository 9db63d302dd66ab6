//! Volume resolution: from the declared volumes and the project root to the
//! mounts of the container, with collisions settled or reported.

use vstd::prelude::*;
use crate::errors::{LaunchError, LaunchErrorModel};
use crate::paths::{is_absolute, resolve, resolve_path};
use crate::text::{holds, same, views};

verus! {

/// Where a volume goes that names no container path, and where the project
/// root is taken to be mounted when no volume mounts it.
pub const MOUNT_POINT: &'static str = "/src";

/// The model of `MOUNT_POINT`.
pub open spec fn mount_point() -> Seq<char> {
    "/src"@
}

/// How the container may use a mount.
#[derive(Clone, Copy, Debug, PartialEq, Eq, Structural)]
pub enum Access {
    ReadWrite,
    ReadOnly,
}

/// One volume as the configuration declares it.
#[derive(Clone, Debug, PartialEq, Eq)]
pub struct VolumeDecl {
    /// The path on the host; a relative one is relative to the project root.
    pub host: String,
    /// The path inside the container, if one is declared.
    pub container: Option<String>,
    /// Whether the volume is explicitly marked read-only.
    pub read_only: bool,
    /// Whether this volume may override an earlier one at the same container path.
    pub switch: bool,
    /// Whether the host path is to be created if it does not exist.
    pub create: bool,
}

/// The model of a `VolumeDecl`.
pub struct VolumeDeclModel {
    pub host: Seq<char>,
    pub container: Option<Seq<char>>,
    pub read_only: bool,
    pub switch: bool,
    pub create: bool,
}

impl View for VolumeDecl {
    type V = VolumeDeclModel;

    open spec fn view(&self) -> VolumeDeclModel {
        VolumeDeclModel {
            host: self.host@,
            container: match self.container {
                Some(c) => Some(c@),
                None => None,
            },
            read_only: self.read_only,
            switch: self.switch,
            create: self.create,
        }
    }
}

/// One mount of the container.
#[derive(Clone, Debug, PartialEq, Eq)]
pub struct VolumeMount {
    pub host: String,
    pub container: String,
    pub access: Access,
    pub switch: bool,
}

/// The model of a `VolumeMount`.
pub struct VolumeMountModel {
    pub host: Seq<char>,
    pub container: Seq<char>,
    pub access: Access,
    pub switch: bool,
}

impl View for VolumeMount {
    type V = VolumeMountModel;

    open spec fn view(&self) -> VolumeMountModel {
        VolumeMountModel {
            host: self.host@,
            container: self.container@,
            access: self.access,
            switch: self.switch,
        }
    }
}

impl VolumeMountModel {
    /// A mount is resolved when both of its paths are absolute.
    pub open spec fn is_resolved(self) -> bool {
        is_absolute(self.host) && is_absolute(self.container)
    }
}

/// The container path that a declaration targets: the declared one, or the
/// conventional mount point.
pub open spec fn target(d: VolumeDeclModel) -> Seq<char> {
    match d.container {
        Some(c) => c,
        None => mount_point(),
    }
}

/// The mount that a declaration stands for under the project root `root`.
pub open spec fn mount_of(d: VolumeDeclModel, root: Seq<char>) -> VolumeMountModel {
    VolumeMountModel {
        host: resolve(root, d.host),
        container: target(d),
        access: if d.read_only {
            Access::ReadOnly
        } else {
            Access::ReadWrite
        },
        switch: d.switch,
    }
}

/// Whether declaration `j` targets the container path of an earlier one.
pub open spec fn collides(decls: Seq<VolumeDeclModel>, j: int) -> bool {
    exists|i: int| 0 <= i < j && target(#[trigger] decls[i]) == target(decls[j])
}

/// Whether declaration `j` collides with an earlier one that it may not
/// override.
pub open spec fn offends(decls: Seq<VolumeDeclModel>, j: int) -> bool {
    !decls[j].switch && collides(decls, j)
}

/// Whether a later declaration targets the container path of declaration `i`.
pub open spec fn overridden(decls: Seq<VolumeDeclModel>, i: int) -> bool {
    exists|j: int| i < j < decls.len() && target(#[trigger] decls[j]) == target(decls[i])
}

/// The container paths at which one of the first `n` declarations offends,
/// each once, in the order in which the offences are met.
pub open spec fn conflicts(decls: Seq<VolumeDeclModel>, n: int) -> Seq<Seq<char>>
    decreases n,
{
    if n <= 0 {
        Seq::empty()
    } else {
        let rest = conflicts(decls, n - 1);
        let t = target(decls[n - 1]);
        if offends(decls, n - 1) && !rest.contains(t) {
            rest.push(t)
        } else {
            rest
        }
    }
}

/// The mounts of those among the first `n` declarations that no later
/// declaration overrides, in declaration order.
pub open spec fn survivors(decls: Seq<VolumeDeclModel>, root: Seq<char>, n: int) -> Seq<
    VolumeMountModel,
>
    decreases n,
{
    if n <= 0 {
        Seq::empty()
    } else {
        let rest = survivors(decls, root, n - 1);
        if overridden(decls, n - 1) {
            rest
        } else {
            rest.push(mount_of(decls[n - 1], root))
        }
    }
}

/// Whether declaration `i` becomes a mount whose host path is needed and is
/// not among `files`.
pub open spec fn lacks_host(
    decls: Seq<VolumeDeclModel>,
    root: Seq<char>,
    files: Seq<Seq<char>>,
    i: int,
) -> bool {
    !overridden(decls, i) && !decls[i].create && !files.contains(resolve(root, decls[i].host))
}

/// The first declaration at or after `from` that lacks its host path, or the
/// number of declarations.
pub open spec fn first_lacking(
    decls: Seq<VolumeDeclModel>,
    root: Seq<char>,
    files: Seq<Seq<char>>,
    from: int,
) -> int
    decreases decls.len() - from,
{
    if from < 0 || from >= decls.len() {
        decls.len() as int
    } else if lacks_host(decls, root, files, from) {
        from
    } else {
        first_lacking(decls, root, files, from + 1)
    }
}

/// What volume resolution gives: the conflicts if there are any; else the
/// first host path that is missing; else the surviving mounts.
pub open spec fn resolved(
    decls: Seq<VolumeDeclModel>,
    root: Seq<char>,
    files: Seq<Seq<char>>,
) -> Result<Seq<VolumeMountModel>, LaunchErrorModel> {
    let paths = conflicts(decls, decls.len() as int);
    let m = first_lacking(decls, root, files, 0);
    if paths.len() > 0 {
        Err(LaunchErrorModel::VolumeConflict { paths })
    } else if m < decls.len() {
        Err(LaunchErrorModel::VolumeHostPathMissing { path: resolve(root, decls[m].host) })
    } else {
        Ok(survivors(decls, root, decls.len() as int))
    }
}

/// Whether `mount` is the mount of one of the first `n` declarations that no
/// later declaration overrides.
pub open spec fn has_source(
    decls: Seq<VolumeDeclModel>,
    root: Seq<char>,
    mount: VolumeMountModel,
    n: int,
) -> bool {
    exists|i: int|
        0 <= i < n && !overridden(decls, i) && mount == mount_of(#[trigger] decls[i], root)
}

/// Whether one of the first `n` declarations offends at the container path `p`.
pub open spec fn offended_at(decls: Seq<VolumeDeclModel>, p: Seq<char>, n: int) -> bool {
    exists|j: int| 0 <= j < n && offends(decls, j) && target(#[trigger] decls[j]) == p
}

/// The reported conflicts are exactly the container paths at which a
/// declaration offends, each once.
pub proof fn lemma_conflicts(decls: Seq<VolumeDeclModel>, n: int)
    requires
        0 <= n <= decls.len(),
    ensures
        conflicts(decls, n).no_duplicates(),
        forall|p: Seq<char>| conflicts(decls, n).contains(p) <==> offended_at(decls, p, n),
    decreases n,
{
    if n > 0 {
        lemma_conflicts(decls, n - 1);
        let rest = conflicts(decls, n - 1);
        let t = target(decls[n - 1]);
        let all = conflicts(decls, n);
        assert forall|p: Seq<char>| all.contains(p) <==> offended_at(decls, p, n) by {
            if all.contains(p) {
                let k = choose|k: int| 0 <= k < all.len() && all[k] == p;
                if k < rest.len() {
                    assert(rest[k] == p);
                    assert(rest.contains(p));
                    assert(offended_at(decls, p, n - 1));
                    let j = choose|j: int|
                        0 <= j < n - 1 && offends(decls, j) && target(#[trigger] decls[j]) == p;
                    assert(0 <= j < n && offends(decls, j) && target(decls[j]) == p);
                } else {
                    assert(offends(decls, n - 1) && target(decls[n - 1]) == p);
                }
            }
            if offended_at(decls, p, n) {
                let j = choose|j: int|
                    0 <= j < n && offends(decls, j) && target(#[trigger] decls[j]) == p;
                if j < n - 1 {
                    assert(offended_at(decls, p, n - 1));
                    let k = choose|k: int| 0 <= k < rest.len() && rest[k] == p;
                    assert(all[k] == p);
                } else if rest.contains(t) {
                    let k = choose|k: int| 0 <= k < rest.len() && rest[k] == t;
                    assert(all[k] == p);
                } else {
                    assert(all[all.len() - 1] == p);
                }
            }
        }
    }
}

/// The surviving mounts are exactly the mounts of the declarations that no
/// later declaration overrides, and no two of them share a container path.
pub proof fn lemma_survivors(decls: Seq<VolumeDeclModel>, root: Seq<char>, n: int)
    requires
        0 <= n <= decls.len(),
    ensures
        forall|k: int|
            0 <= k < survivors(decls, root, n).len() ==> has_source(
                decls,
                root,
                #[trigger] survivors(decls, root, n)[k],
                n,
            ),
        forall|i: int|
            0 <= i < n && !overridden(decls, i) ==> survivors(decls, root, n).contains(
                mount_of(#[trigger] decls[i], root),
            ),
        forall|k: int, l: int|
            0 <= k < l < survivors(decls, root, n).len() ==> (#[trigger] survivors(
                decls,
                root,
                n,
            )[k]).container != (#[trigger] survivors(decls, root, n)[l]).container,
    decreases n,
{
    if n > 0 {
        lemma_survivors(decls, root, n - 1);
        let rest = survivors(decls, root, n - 1);
        let all = survivors(decls, root, n);
        assert forall|k: int| 0 <= k < all.len() implies has_source(
            decls,
            root,
            #[trigger] all[k],
            n,
        ) by {
            if k < rest.len() {
                assert(has_source(decls, root, rest[k], n - 1));
                let i = choose|i: int|
                    0 <= i < n - 1 && !overridden(decls, i) && rest[k] == mount_of(
                        #[trigger] decls[i],
                        root,
                    );
                assert(0 <= i < n && !overridden(decls, i) && all[k] == mount_of(decls[i], root));
            } else {
                assert(all[k] == mount_of(decls[n - 1], root));
            }
        }
        assert forall|i: int| 0 <= i < n && !overridden(decls, i) implies all.contains(
            mount_of(#[trigger] decls[i], root),
        ) by {
            if i < n - 1 {
                let k = choose|k: int|
                    0 <= k < rest.len() && rest[k] == mount_of(decls[i], root);
                assert(all[k] == mount_of(decls[i], root));
            } else {
                assert(all[all.len() - 1] == mount_of(decls[i], root));
            }
        }
        assert forall|k: int, l: int| 0 <= k < l < all.len() implies (#[trigger] all[k]).container
            != (#[trigger] all[l]).container by {
            if l >= rest.len() {
                assert(has_source(decls, root, rest[k], n - 1));
                let i = choose|i: int|
                    0 <= i < n - 1 && !overridden(decls, i) && rest[k] == mount_of(
                        #[trigger] decls[i],
                        root,
                    );
                if all[k].container == all[l].container {
                    assert(target(decls[n - 1]) == target(decls[i]));
                    assert(overridden(decls, i));
                }
            } else {
                assert(rest[k].container != rest[l].container);
            }
        }
    }
}

/// Two declarations that target one container path: if the later one has no
/// `switch`, resolution fails with the conflict at that path; if it has, the
/// later one alone is mounted, provided its host path exists or is to be
/// created.
pub proof fn law_colliding_pair(
    a: VolumeDeclModel,
    b: VolumeDeclModel,
    root: Seq<char>,
    files: Seq<Seq<char>>,
)
    requires
        target(a) == target(b),
    ensures
        !b.switch ==> resolved(seq![a, b], root, files) == Err::<
            Seq<VolumeMountModel>,
            LaunchErrorModel,
        >(LaunchErrorModel::VolumeConflict { paths: seq![target(b)] }),
        b.switch && (b.create || files.contains(resolve(root, b.host))) ==> resolved(
            seq![a, b],
            root,
            files,
        ) == Ok::<Seq<VolumeMountModel>, LaunchErrorModel>(seq![mount_of(b, root)]),
        b.switch && !b.create && !files.contains(resolve(root, b.host)) ==> resolved(
            seq![a, b],
            root,
            files,
        ) == Err::<Seq<VolumeMountModel>, LaunchErrorModel>(
            LaunchErrorModel::VolumeHostPathMissing { path: resolve(root, b.host) },
        ),
{
    let decls = seq![a, b];
    reveal_with_fuel(conflicts, 3);
    reveal_with_fuel(survivors, 3);
    reveal_with_fuel(first_lacking, 3);
    assert(decls[0] == a && decls[1] == b);
    assert(!collides(decls, 0));
    assert(target(decls[0]) == target(decls[1]));
    assert(collides(decls, 1));
    assert(overridden(decls, 0));
    assert(!overridden(decls, 1));
    assert(conflicts(decls, 0) =~= Seq::empty());
    assert(!conflicts(decls, 1).contains(target(b)));
    if !b.switch {
        assert(conflicts(decls, 2) =~= seq![target(b)]);
    } else {
        assert(conflicts(decls, 2) =~= Seq::empty());
        assert(survivors(decls, root, 2) =~= seq![mount_of(b, root)]);
    }
}

/// Resolution fails with a conflict exactly when some declaration offends; the
/// paths reported are then those at which one does, each once.
pub proof fn law_conflicts_reported(
    decls: Seq<VolumeDeclModel>,
    root: Seq<char>,
    files: Seq<Seq<char>>,
)
    ensures
        (resolved(decls, root, files) matches Err(LaunchErrorModel::VolumeConflict { .. })) <==> (
        exists|j: int| 0 <= j < decls.len() && #[trigger] offends(decls, j)),
        resolved(decls, root, files) matches Err(LaunchErrorModel::VolumeConflict { paths })
            ==> paths.no_duplicates() && forall|p: Seq<char>|
            paths.contains(p) <==> offended_at(decls, p, decls.len() as int),
{
    let n = decls.len() as int;
    let c = conflicts(decls, n);
    lemma_conflicts(decls, n);
    if c.len() > 0 {
        assert(c.contains(c[0]));
        assert(offended_at(decls, c[0], n));
    }
    if exists|j: int| 0 <= j < decls.len() && #[trigger] offends(decls, j) {
        let j = choose|j: int| 0 <= j < decls.len() && #[trigger] offends(decls, j);
        assert(offended_at(decls, target(decls[j]), n));
        assert(c.contains(target(decls[j])));
    }
}

/// Where resolution succeeds, the mounts are those of the declarations that no
/// later one overrides, in declaration order; no two share a container path;
/// and each needed host path exists or is to be created.
pub proof fn law_mounts(decls: Seq<VolumeDeclModel>, root: Seq<char>, files: Seq<Seq<char>>)
    ensures
        resolved(decls, root, files) matches Ok(mounts) ==> {
            &&& forall|k: int|
                0 <= k < mounts.len() ==> has_source(
                    decls,
                    root,
                    #[trigger] mounts[k],
                    decls.len() as int,
                )
            &&& forall|i: int|
                0 <= i < decls.len() && !overridden(decls, i) ==> mounts.contains(
                    mount_of(#[trigger] decls[i], root),
                )
            &&& forall|k: int, l: int|
                0 <= k < l < mounts.len() ==> (#[trigger] mounts[k]).container != (
                #[trigger] mounts[l]).container
            &&& forall|i: int|
                0 <= i < decls.len() ==> !#[trigger] lacks_host(decls, root, files, i)
        },
{
    lemma_survivors(decls, root, decls.len() as int);
    lemma_first_lacking(decls, root, files, 0);
}

pub proof fn lemma_first_lacking(
    decls: Seq<VolumeDeclModel>,
    root: Seq<char>,
    files: Seq<Seq<char>>,
    from: int,
)
    requires
        0 <= from <= decls.len(),
    ensures
        from <= first_lacking(decls, root, files, from) <= decls.len(),
        forall|i: int|
            from <= i < first_lacking(decls, root, files, from) ==> !#[trigger] lacks_host(
                decls,
                root,
                files,
                i,
            ),
        first_lacking(decls, root, files, from) < decls.len() ==> lacks_host(
            decls,
            root,
            files,
            first_lacking(decls, root, files, from),
        ),
    decreases decls.len() - from,
{
    if from < decls.len() && !lacks_host(decls, root, files, from) {
        lemma_first_lacking(decls, root, files, from + 1);
    }
}

/// Under an absolute project root, and with absolute container paths declared,
/// every mount is resolved: both of its paths are absolute.
pub proof fn law_mounts_resolved(
    decls: Seq<VolumeDeclModel>,
    root: Seq<char>,
    files: Seq<Seq<char>>,
)
    requires
        is_absolute(root),
        forall|i: int|
            0 <= i < decls.len() ==> ((#[trigger] decls[i]).container matches Some(c)
                ==> is_absolute(c)),
    ensures
        resolved(decls, root, files) matches Ok(mounts) ==> forall|k: int|
            0 <= k < mounts.len() ==> (#[trigger] mounts[k]).is_resolved(),
{
    reveal_strlit("/src");
    lemma_survivors(decls, root, decls.len() as int);
    let mounts = survivors(decls, root, decls.len() as int);
    assert forall|k: int| 0 <= k < mounts.len() implies (#[trigger] mounts[k]).is_resolved() by {
        assert(has_source(decls, root, mounts[k], decls.len() as int));
    }
}

/// The model of what `resolve_volumes` returns.
pub open spec fn mounts_outcome(r: Result<Vec<VolumeMount>, LaunchError>) -> Result<
    Seq<VolumeMountModel>,
    LaunchErrorModel,
> {
    match r {
        Ok(v) => Ok(views(v@)),
        Err(e) => Err(e@),
    }
}

/// The container path that a declaration targets.
pub fn target_of(d: &VolumeDecl) -> (t: &str)
    ensures
        t@ == target(d@),
{
    match &d.container {
        Some(c) => c.as_str(),
        None => MOUNT_POINT,
    }
}

/// The host paths of the declarations, each anchored at `root`, in
/// declaration order.
pub open spec fn host_paths_of(decls: Seq<VolumeDeclModel>, root: Seq<char>) -> Seq<Seq<char>> {
    Seq::new(decls.len(), |i: int| resolve(root, decls[i].host))
}

/// The host paths that volume resolution will ask about: the caller finds out
/// which of them exist, and hands those to `resolve_volumes`.
pub fn host_paths(decls: &Vec<VolumeDecl>, root: &str) -> (out: Vec<String>)
    ensures
        views(out@) == host_paths_of(views(decls@), root@),
{
    let mut out: Vec<String> = Vec::new();
    let mut i: usize = 0;
    while i < decls.len()
        invariant
            i <= decls.len(),
            out@.len() == i,
            forall|k: int|
                0 <= k < i ==> (#[trigger] out@[k])@ == resolve(root@, decls@[k].host@),
        decreases decls.len() - i,
    {
        out.push(resolve_path(root, decls[i].host.as_str()));
        i += 1;
    }
    assert(views(out@) =~= host_paths_of(views(decls@), root@));
    out
}

fn collides_before(decls: &Vec<VolumeDecl>, j: usize) -> (r: bool)
    requires
        j < decls.len(),
    ensures
        r == collides(views(decls@), j as int),
{
    let ghost m = views(decls@);
    let t = target_of(&decls[j]);
    let mut i: usize = 0;
    while i < j
        invariant
            i <= j < decls.len(),
            m == views(decls@),
            t@ == target(m[j as int]),
            forall|k: int| 0 <= k < i ==> target(#[trigger] m[k]) != target(m[j as int]),
        decreases j - i,
    {
        if same(target_of(&decls[i]), t) {
            assert(target(m[i as int]) == target(m[j as int]));
            return true;
        }
        i += 1;
    }
    false
}

fn overridden_at(decls: &Vec<VolumeDecl>, i: usize) -> (r: bool)
    requires
        i < decls.len(),
    ensures
        r == overridden(views(decls@), i as int),
{
    let ghost m = views(decls@);
    let t = target_of(&decls[i]);
    let mut j: usize = i + 1;
    while j < decls.len()
        invariant
            i < j <= decls.len(),
            m == views(decls@),
            t@ == target(m[i as int]),
            forall|k: int| i < k < j ==> target(#[trigger] m[k]) != target(m[i as int]),
        decreases decls.len() - j,
    {
        if same(target_of(&decls[j]), t) {
            assert(target(m[j as int]) == target(m[i as int]));
            return true;
        }
        j += 1;
    }
    false
}

/// Resolves the declared volumes against the project root `root`. `files`
/// lists the host paths that exist.
///
/// A declaration without `switch` that targets the container path of an
/// earlier one is a conflict; all such container paths are reported. A
/// declaration with `switch` replaces the earlier ones at its container path.
/// A mount whose host path is neither among `files` nor to be created is
/// reported as missing, the first such in declaration order.
pub fn resolve_volumes(decls: &Vec<VolumeDecl>, root: &str, files: &Vec<String>) -> (out: Result<
    Vec<VolumeMount>,
    LaunchError,
>)
    ensures
        mounts_outcome(out) == resolved(views(decls@), root@, views(files@)),
        out matches Ok(mounts) ==> forall|k: int, l: int|
            0 <= k < l < mounts.len() ==> (#[trigger] mounts[k]).container@ != (
            #[trigger] mounts[l]).container@,
{
    let ghost m = views(decls@);
    let ghost f = views(files@);
    proof {
        law_mounts(m, root@, f);
    }
    let mut paths: Vec<String> = Vec::new();
    let mut j: usize = 0;
    while j < decls.len()
        invariant
            j <= decls.len(),
            m == views(decls@),
            views(paths@) == conflicts(m, j as int),
        decreases decls.len() - j,
    {
        if !decls[j].switch && collides_before(decls, j) {
            let t = target_of(&decls[j]);
            if !holds(&paths, t) {
                let ghost before = paths@;
                paths.push(t.to_owned());
                assert(views(paths@) =~= views(before).push(t@));
            }
        }
        j += 1;
    }
    if paths.len() > 0 {
        return Err(LaunchError::VolumeConflict { paths });
    }
    let mut mounts: Vec<VolumeMount> = Vec::new();
    let mut i: usize = 0;
    while i < decls.len()
        invariant
            i <= decls.len(),
            m == views(decls@),
            f == views(files@),
            conflicts(m, m.len() as int).len() == 0,
            views(mounts@) == survivors(m, root@, i as int),
            first_lacking(m, root@, f, 0) == first_lacking(m, root@, f, i as int),
        decreases decls.len() - i,
    {
        if !overridden_at(decls, i) {
            let host = resolve_path(root, decls[i].host.as_str());
            if !decls[i].create && !holds(files, host.as_str()) {
                return Err(LaunchError::VolumeHostPathMissing { path: host });
            }
            let ghost before = mounts@;
            mounts.push(
                VolumeMount {
                    host,
                    container: target_of(&decls[i]).to_owned(),
                    access: if decls[i].read_only {
                        Access::ReadOnly
                    } else {
                        Access::ReadWrite
                    },
                    switch: decls[i].switch,
                },
            );
            assert(views(mounts@) =~= views(before).push(mount_of(m[i as int], root@)));
        }
        i += 1;
    }
    assert forall|k: int, l: int| 0 <= k < l < mounts.len() implies (#[trigger] mounts[k]).container@
        != (#[trigger] mounts[l]).container@ by {
        assert(views(mounts@)[k].container != views(mounts@)[l].container);
    }
    Ok(mounts)
}

} // verus!
