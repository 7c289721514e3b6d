//! The library's general laws, proved once and for all over the state
//! transformers that the operations' contracts are written with.

use crate::codec::sha256_hex_of;
use crate::model::package::ContainerView;
use crate::package::hashes_match;
use crate::state::{add_spec, bins_of, commit_allowed, container_binary, container_binary_key,
    container_package, current_backed, empty_state, entry_name_of, evicted_current,
    make_current_spec, owned_binary, remove_all_spec, remove_spec, wf_state, PackageView,
    StateView};
use vstd::prelude::*;

verus! {

/// One recorded mutation of the in-memory state.
pub ghost enum StateOp {
    Add(ContainerView),
    MakeCurrent(ContainerView),
}

/// What one operation does to the state: an add always records; making
/// a package current moves the state only when the package is
/// recorded, as the operation otherwise fails without a change.
pub open spec fn apply_op(s: StateView, op: StateOp) -> StateView {
    match op {
        StateOp::Add(c) => add_spec(s, c),
        StateOp::MakeCurrent(c) => if s.installed_packages.contains_key(
            container_package(c).id,
        ) {
            make_current_spec(s, c)
        } else {
            s
        },
    }
}

/// A whole history of operations, applied front to back.
pub open spec fn apply_ops(s: StateView, ops: Seq<StateOp>) -> StateView
    decreases ops.len(),
{
    if ops.len() == 0 {
        s
    } else {
        apply_ops(apply_op(s, ops[0]), ops.skip(1))
    }
}

/// The empty state is well formed.
pub proof fn lemma_wf_empty()
    ensures
        wf_state(empty_state()),
{
}

/// Recording a placed package keeps the state well formed.
pub proof fn lemma_add_wf(s: StateView, c: ContainerView)
    requires
        wf_state(s),
    ensures
        wf_state(add_spec(s, c)),
{
    let s2 = add_spec(s, c);
    assert forall|k: Seq<char>| #[trigger]
        s2.installed_binaries.contains_key(k) implies s2.installed_binaries[k].id == k
        && s2.installed_binaries[k].id == s2.installed_binaries[k].package_id + "/"@
        + s2.installed_binaries[k].name && s2.installed_packages.contains_key(
        s2.installed_binaries[k].package_id,
    ) by {
        if bins_of(c).contains_key(k) {
            let nm = entry_name_of(c, k);
            assert(c.package.entrypoints.contains_key(nm) && k == container_binary_key(c, nm));
            assert(s2.installed_binaries[k] == container_binary(c, nm));
        }
    }
}

/// Making a recorded package current keeps the state well formed.
pub proof fn lemma_make_current_wf(s: StateView, c: ContainerView)
    requires
        wf_state(s),
        s.installed_packages.contains_key(container_package(c).id),
    ensures
        wf_state(make_current_spec(s, c)),
{
    let p = container_package(c);
    let s2 = make_current_spec(s, c);
    assert forall|n: Seq<char>| #[trigger]
        s2.current_binaries.contains_key(n) implies s2.current_binaries[n].name == n
        && s2.current_binaries[n].id == s2.current_binaries[n].package_id + "/"@ + n
        && s2.installed_packages.contains_key(s2.current_binaries[n].package_id) by {
        if owned_binary(s, p.id, n) {
            assert(s2.current_binaries[n] == s.installed_binaries[p.id + "/"@ + n]);
        } else {
            assert(evicted_current(s, p).contains_key(n));
            assert(s.current_binaries.contains_key(n));
            assert(s2.current_binaries[n] == s.current_binaries[n]);
        }
    }
}

/// Removing a package keeps the state well formed, and removes exactly
/// its URN from the package table.
pub proof fn lemma_remove_wf(s: StateView, id: Seq<char>)
    requires
        wf_state(s),
    ensures
        wf_state(remove_spec(s, id)),
        remove_spec(s, id).installed_packages.dom() =~= s.installed_packages.dom().remove(id),
{
}

/// Every operation keeps the state well formed.
pub proof fn lemma_apply_ops_wf(s: StateView, ops: Seq<StateOp>)
    requires
        wf_state(s),
    ensures
        wf_state(apply_ops(s, ops)),
    decreases ops.len(),
{
    if ops.len() > 0 {
        match ops[0] {
            StateOp::Add(c) => {
                lemma_add_wf(s, c);
            },
            StateOp::MakeCurrent(c) => {
                if s.installed_packages.contains_key(container_package(c).id) {
                    lemma_make_current_wf(s, c);
                }
            },
        }
        lemma_apply_ops_wf(apply_op(s, ops[0]), ops.skip(1));
    }
}

/// Removing every URN of a list that covers the package table empties
/// the package table, the recorded binaries, and the current binaries.
pub proof fn lemma_remove_all_empties(s: StateView, ids: Seq<Seq<char>>)
    requires
        wf_state(s),
        s.installed_packages.dom().subset_of(ids.to_set()),
    ensures
        remove_all_spec(s, ids).installed_packages =~= Map::<Seq<char>, PackageView>::empty(),
        remove_all_spec(s, ids).installed_binaries.dom() =~= Set::<Seq<char>>::empty(),
        remove_all_spec(s, ids).current_binaries.dom() =~= Set::<Seq<char>>::empty(),
    decreases ids.len(),
{
    if ids.len() == 0 {
        assert(s.installed_packages.dom() =~= Set::<Seq<char>>::empty()) by {
            assert forall|x: Seq<char>| !s.installed_packages.dom().contains(x) by {
                if s.installed_packages.dom().contains(x) {
                    assert(ids.to_set().contains(x));
                    assert(ids.contains(x));
                }
            }
        }
        assert(s.installed_packages =~= Map::<Seq<char>, PackageView>::empty());
        assert forall|k: Seq<char>| !s.installed_binaries.dom().contains(k) by {
            if s.installed_binaries.contains_key(k) {
                assert(s.installed_packages.contains_key(s.installed_binaries[k].package_id));
            }
        }
        assert forall|n: Seq<char>| !s.current_binaries.dom().contains(n) by {
            if s.current_binaries.contains_key(n) {
                assert(s.installed_packages.contains_key(s.current_binaries[n].package_id));
            }
        }
    } else {
        let s1 = remove_spec(s, ids[0]);
        lemma_remove_wf(s, ids[0]);
        assert(s1.installed_packages.dom().subset_of(ids.skip(1).to_set())) by {
            assert forall|x: Seq<char>| s1.installed_packages.dom().contains(x) implies ids.skip(
                1,
            ).to_set().contains(x) by {
                assert(s.installed_packages.dom().contains(x) && x != ids[0]);
                assert(ids.to_set().contains(x));
                assert(ids.contains(x));
                let j = choose|j: int| 0 <= j < ids.len() && ids[j] == x;
                assert(j != 0);
                assert(ids.skip(1)[j - 1] == x);
                assert(ids.skip(1).contains(x));
            }
        }
        lemma_remove_all_empties(s1, ids.skip(1));
        assert(remove_all_spec(s, ids) == remove_all_spec(s1, ids.skip(1)));
    }
}

/// However a state was built from empty by recording packages and
/// making them current, removing every recorded package URN returns it
/// to where it started: no package, no recorded binary, and no current
/// binary remain.  The current-package name table is the one part that stays
/// behind: removal does not elect a new current version, so its
/// dangling name entries remain.
pub proof fn lemma_add_remove_round_trip(ops: Seq<StateOp>, ids: Seq<Seq<char>>)
    requires
        apply_ops(empty_state(), ops).installed_packages.dom().subset_of(ids.to_set()),
    ensures
        remove_all_spec(apply_ops(empty_state(), ops), ids).installed_packages =~= Map::<
            Seq<char>,
            PackageView,
        >::empty(),
        remove_all_spec(apply_ops(empty_state(), ops), ids).installed_binaries.dom() =~= Set::<
            Seq<char>,
        >::empty(),
        remove_all_spec(apply_ops(empty_state(), ops), ids).current_binaries.dom() =~= Set::<
            Seq<char>,
        >::empty(),
{
    lemma_wf_empty();
    lemma_apply_ops_wf(empty_state(), ops);
    lemma_remove_all_empties(apply_ops(empty_state(), ops), ids);
}

/// Right after a package is made current, a name whose current entry
/// carries the package's URN holds exactly the recorded binary of that
/// package and name — provided every current entry was backed by a
/// recorded binary before the call.  Every state the operations build
/// satisfies that hypothesis, and `InstalledState::check_current_backed`
/// decides it on any state.
pub proof fn lemma_current_binary_closure(s: StateView, c: ContainerView)
    requires
        wf_state(s),
        s.installed_packages.contains_key(container_package(c).id),
        current_backed(s),
    ensures
        forall|n: Seq<char>|
            (#[trigger] make_current_spec(s, c).current_binaries.contains_key(n)
                && make_current_spec(s, c).current_binaries[n].package_id == container_package(
                c,
            ).id) ==> make_current_spec(s, c).installed_binaries.contains_key(
                container_package(c).id + "/"@ + n,
            ) && make_current_spec(s, c).current_binaries[n] == make_current_spec(
                s,
                c,
            ).installed_binaries[container_package(c).id + "/"@ + n],
{
    let p = container_package(c);
    let s2 = make_current_spec(s, c);
    assert forall|n: Seq<char>|
        #[trigger] s2.current_binaries.contains_key(n) && s2.current_binaries[n].package_id
            == p.id implies s2.installed_binaries.contains_key(p.id + "/"@ + n)
        && s2.current_binaries[n] == s2.installed_binaries[p.id + "/"@ + n] by {
        if !owned_binary(s, p.id, n) {
            assert(s2.current_binaries[n] == evicted_current(s, p)[n]);
            assert(s.current_binaries.contains_key(n) && s.current_binaries[n].package_id
                == p.id);
            assert(owned_binary(s, p.id, n));
        }
    }
}

/// Two containers loaded under the same token race: the first commit
/// is allowed against that token, and once it stamps a fresh time on
/// disk, the second commit against the new token is refused.
pub proof fn lemma_optimistic_concurrency(t: Option<i64>, now: i64)
    requires
        Option::Some(now) != t,
    ensures
        commit_allowed(t, t),
        !commit_allowed(t, Option::Some(now)),
{
}

/// An archive one of whose files carries bytes whose digest differs
/// from the digest recorded for it never validates.
pub proof fn lemma_hash_mismatch_rejected(
    files: Seq<(Seq<char>, Seq<u8>)>,
    file_hashes: Map<Seq<char>, Seq<char>>,
    j: int,
)
    requires
        0 <= j < files.len(),
        sha256_hex_of(files[j].1) != file_hashes[files[j].0],
    ensures
        !hashes_match(files, file_hashes),
{
    if hashes_match(files, file_hashes) {
        assert(sha256_hex_of(files[j].1) == file_hashes[files[j].0]);
    }
}

/// Recording the same package twice, at different locations but with
/// the same entrypoint names, is the same as recording it once at the
/// second location: one package entry and one binary per entrypoint
/// remain, all pointing at the second path.
pub proof fn lemma_path_migration_idempotent(s: StateView, c1: ContainerView, c2: ContainerView)
    requires
        c1.package.name == c2.package.name,
        c1.package.version == c2.package.version,
        c1.package.entrypoints.dom() =~= c2.package.entrypoints.dom(),
    ensures
        add_spec(add_spec(s, c1), c2) == add_spec(s, c2),
        add_spec(add_spec(s, c1), c2).installed_packages[container_package(c2).id]
            == container_package(c2),
        forall|n: Seq<char>|
            c2.package.entrypoints.contains_key(n) ==> add_spec(
                add_spec(s, c1),
                c2,
            ).installed_binaries[#[trigger] container_binary_key(c2, n)] == container_binary(
                c2,
                n,
            ),
{
    let p1 = container_package(c1);
    let p2 = container_package(c2);
    assert(p1.id == p2.id);
    assert(bins_of(c1).dom() =~= bins_of(c2).dom()) by {
        assert forall|k: Seq<char>|
            #[trigger] bins_of(c1).dom().contains(k) implies bins_of(c2).dom().contains(k) by {
            let nm = choose|nm: Seq<char>|
                #[trigger] c1.package.entrypoints.contains_key(nm) && k == container_binary_key(
                    c1,
                    nm,
                );
            assert(c2.package.entrypoints.contains_key(nm) && k == container_binary_key(c2, nm));
        }
        assert forall|k: Seq<char>|
            #[trigger] bins_of(c2).dom().contains(k) implies bins_of(c1).dom().contains(k) by {
            let nm = choose|nm: Seq<char>|
                #[trigger] c2.package.entrypoints.contains_key(nm) && k == container_binary_key(
                    c2,
                    nm,
                );
            assert(c1.package.entrypoints.contains_key(nm) && k == container_binary_key(c1, nm));
        }
    }
    assert(add_spec(add_spec(s, c1), c2).installed_packages =~= add_spec(s, c2).installed_packages);
    assert(add_spec(add_spec(s, c1), c2).installed_binaries =~= add_spec(s, c2).installed_binaries);
    assert(add_spec(add_spec(s, c1), c2) =~= add_spec(s, c2));
    assert forall|n: Seq<char>|
        c2.package.entrypoints.contains_key(n) implies add_spec(s, c2).installed_binaries[
        #[trigger] container_binary_key(c2, n)] == container_binary(c2, n) by {
        let k = container_binary_key(c2, n);
        assert(bins_of(c2).contains_key(k));
        let nm2 = entry_name_of(c2, k);
        assert(c2.package.entrypoints.contains_key(nm2) && k == container_binary_key(c2, nm2));
        crate::util::lemma_binary_id_injective(c2.package.name, c2.package.version, n, nm2);
        assert(bins_of(c2)[k] == container_binary(c2, n));
    }
}

} // verus!
