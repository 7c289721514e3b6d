//! Command-level decisions: how `exec` resolves a binary, which
//! packages a remote owns, and how a package's binaries are listed.

use crate::state::{description_of, PackageDescription, StateContainer, StateError, wf_state};
use crate::strutil::opt_view;
use crate::util::GlobalFolders;
use vstd::prelude::*;
use vstd::string::StringExecFns;

verus! {

/// What can go wrong while a command runs.
#[derive(Debug)]
pub enum ExecError {
    StateError(StateError),
}

/// One subcommand's work, given the resolved directories.
pub trait SubCommandExec<E> {
    fn execute(self, global_folder: &GlobalFolders) -> Result<(), E>;
}

/// Resolves the executable path an `exec` invocation runs: the pinned
/// version's binary when a version is given, otherwise the current
/// one.  Fails exactly when no such binary is recorded.
pub fn resolve_exec_path(
    container: &StateContainer,
    command_name: &str,
    version: &Option<String>,
) -> (r: Result<String, ExecError>)
    ensures
        match version {
            Option::Some(v) => match r {
                Result::Ok(p) => exists|k: Seq<char>|
                    #[trigger] container.current_state@.installed_binaries.contains_key(k)
                        && container.current_state@.installed_binaries[k].name == command_name@
                        && container.current_state@.installed_binaries[k].version == v@ && p@
                        == container.current_state@.installed_binaries[k].path_to_exec,
                Result::Err(e) => !(exists|k: Seq<char>|
                    #[trigger] container.current_state@.installed_binaries.contains_key(k)
                        && container.current_state@.installed_binaries[k].name == command_name@
                        && container.current_state@.installed_binaries[k].version == v@),
            },
            Option::None => match r {
                Result::Ok(p) => container.current_state@.current_binaries.contains_key(
                    command_name@,
                ) && p@ == container.current_state@.current_binaries[command_name@].path_to_exec,
                Result::Err(e) => !container.current_state@.current_binaries.contains_key(
                    command_name@,
                ),
            },
        },
{
    let resolved = match version {
        Option::Some(v) => container.current_state.get_binary_path(command_name, v.as_str()),
        Option::None => container.current_state.get_current_binary_path(command_name),
    };
    match resolved {
        Result::Ok(p) => Result::Ok(p),
        Result::Err(e) => Result::Err(ExecError::StateError(e)),
    }
}

/// The installed packages a remote owns: every description whose
/// recorded remote name matches.
pub fn packages_from_remote(container: &StateContainer, remote_name: &str) -> (r: Vec<
    PackageDescription,
>)
    requires
        wf_state(container.current_state@),
    ensures
        forall|j: int|
            0 <= j < r@.len() ==> (#[trigger] r@[j]@).remote_name == Option::Some(remote_name@)
                && container.current_state@.installed_packages.contains_key(r@[j]@.package_id)
                && r@[j]@ == description_of(
                container.current_state@,
                container.current_state@.installed_packages[r@[j]@.package_id],
            ),
        forall|k: Seq<char>|
            #[trigger] container.current_state@.installed_packages.contains_key(k)
                && container.current_state@.installed_packages[k].remote_name == Option::Some(
                remote_name@,
            ) ==> exists|j: int|
                0 <= j < r@.len() && (#[trigger] r@[j]@).package_id == k,
{
    let all = container.list_installed_packages();
    let n = all.len();
    let mut out: Vec<PackageDescription> = Vec::new();
    let mut i: usize = 0;
    while i < n
        invariant
            n == all@.len(),
            i <= n,
            container.current_state.installed_packages.entry_facts(),
            forall|j: int|
                0 <= j < all@.len() ==> (#[trigger] all@[j]@).package_id
                    == container.current_state.installed_packages.key_seq()[j],
            forall|j: int|
                0 <= j < all@.len()
                    ==> container.current_state@.installed_packages.contains_key(
                    (#[trigger] all@[j]@).package_id,
                ) && all@[j]@ == description_of(
                    container.current_state@,
                    container.current_state@.installed_packages[all@[j]@.package_id],
                ),
            all@.len() == container.current_state@.installed_packages.dom().len(),
            forall|j: int|
                0 <= j < out@.len() ==> (#[trigger] out@[j]@).remote_name == Option::Some(
                    remote_name@,
                ) && container.current_state@.installed_packages.contains_key(out@[j]@.package_id)
                    && out@[j]@ == description_of(
                    container.current_state@,
                    container.current_state@.installed_packages[out@[j]@.package_id],
                ),
            forall|j: int|
                0 <= j < i && (#[trigger] all@[j]@).remote_name == Option::Some(remote_name@)
                    ==> exists|j2: int| 0 <= j2 < out@.len() && (#[trigger] out@[j2]@).package_id
                    == all@[j]@.package_id,
        decreases n - i,
    {
        let keep = match &all[i].remote_name {
            Option::Some(rn) => crate::strutil::str_eq(rn.as_str(), remote_name),
            Option::None => false,
        };
        proof {
            assert(all@[i as int]@.remote_name == opt_view(all@[i as int].remote_name));
            assert(keep == (all@[i as int]@.remote_name == Option::Some(remote_name@)));
        }
        if keep {
            let ghost out0 = out@;
            let d = clone_description(&all[i]);
            out.push(d);
            proof {
                assert forall|j: int|
                    0 <= j < i + 1 && (#[trigger] all@[j]@).remote_name == Option::Some(
                        remote_name@,
                    ) implies exists|j2: int|
                    0 <= j2 < out@.len() && (#[trigger] out@[j2]@).package_id
                        == all@[j]@.package_id by {
                    if j == i as int {
                        assert((#[trigger] out@[out@.len() - 1]@).package_id
                            == all@[j]@.package_id);
                    } else {
                        let j2 = choose|j2: int|
                            0 <= j2 < out0.len() && (#[trigger] out0[j2]@).package_id
                                == all@[j]@.package_id;
                        assert((#[trigger] out@[j2]@).package_id == all@[j]@.package_id);
                    }
                }
            }
        }
        i = i + 1;
    }
    proof {
        assert forall|k: Seq<char>|
            #[trigger] container.current_state@.installed_packages.contains_key(k)
                && container.current_state@.installed_packages[k].remote_name == Option::Some(
                remote_name@,
            ) implies exists|j: int|
            0 <= j < out@.len() && (#[trigger] out@[j]@).package_id == k by {
            let s = container.current_state@;
            let ks = container.current_state.installed_packages.key_seq();
            let j = choose|j: int| 0 <= j < ks.len() && ks[j] == k;
            assert(all@[j]@.package_id == k);
            assert(all@[j]@.remote_name == s.installed_packages[k].remote_name);
        }
    }
    out
}

/// Clones a package description, keeping its value.
pub fn clone_description(d: &PackageDescription) -> (r: PackageDescription)
    ensures
        r@ == d@,
{
    PackageDescription {
        name: d.name.clone(),
        version: d.version.clone(),
        binaries: clone_bool_map(&d.binaries),
        remote_name: crate::strutil::opt_clone(&d.remote_name),
        etag: crate::strutil::opt_clone(&d.etag),
        package_id: d.package_id.clone(),
    }
}

fn clone_bool_map(m: &crate::string_map::StringMap<bool>) -> (r: crate::string_map::StringMap<
    bool,
>)
    ensures
        r@ == m@,
{
    let n = m.len();
    let mut out = crate::string_map::StringMap::<bool>::new();
    let mut i: usize = 0;
    while i < n
        invariant
            m.entry_facts(),
            n == m.key_seq().len(),
            i <= n,
            forall|x: Seq<char>| #[trigger]
                out@.contains_key(x) <==> exists|j: int| 0 <= j < i && m.key_seq()[j] == x,
            forall|x: Seq<char>| #[trigger] out@.contains_key(x) ==> out@[x] == m@[x],
        decreases n - i,
    {
        let k = m.key_at(i).clone();
        let v = *m.value_at(i);
        out.insert(k, v);
        proof {
            assert forall|x: Seq<char>| #[trigger]
                out@.contains_key(x) <==> exists|j: int|
                    0 <= j < i + 1 && m.key_seq()[j] == x by {
                if x == m.key_seq()[i as int] {
                    assert(0 <= (i as int) < i + 1 && m.key_seq()[i as int] == x);
                }
            }
        }
        i = i + 1;
    }
    proof {
        assert forall|x: Seq<char>| #[trigger] out@.contains_key(x) <==> m@.contains_key(x) by {
            if m@.contains_key(x) {
                let j = choose|j: int| 0 <= j < m.key_seq().len() && m.key_seq()[j] == x;
            }
            if out@.contains_key(x) {
                let j = choose|j: int| 0 <= j < i && m.key_seq()[j] == x;
                assert(m@.contains_key(m.key_seq()[j]));
            }
        }
        assert(out@ =~= m@);
    }
    out
}

/// The listing text of a package's binaries: the names in table order,
/// separated by commas, each current one marked.
pub open spec fn binaries_text(bins: Seq<(Seq<char>, bool)>) -> Seq<char>
    decreases bins.len(),
{
    if bins.len() == 0 {
        Seq::<char>::empty()
    } else if bins.len() == 1 {
        binary_item_text(bins[0])
    } else {
        binaries_text(bins.drop_last()) + ", "@ + binary_item_text(bins.last())
    }
}

/// One listed binary: its name, marked when it is current.
pub open spec fn binary_item_text(item: (Seq<char>, bool)) -> Seq<char> {
    if item.1 {
        item.0 + " (current)"@
    } else {
        item.0
    }
}

/// Renders the binary list of a package description.
pub fn binaries_summary(d: &PackageDescription) -> (r: String)
    ensures
        r@ == binaries_text(d.binaries.kvs()),
{
    let n = d.binaries.len();
    let mut out = String::new();
    let mut i: usize = 0;
    proof {
        assert(d.binaries.kvs().subrange(0, 0) =~= Seq::<(Seq<char>, bool)>::empty());
    }
    while i < n
        invariant
            d.binaries.entry_facts(),
            n == d.binaries.key_seq().len(),
            i <= n,
            out@ == binaries_text(d.binaries.kvs().subrange(0, i as int)),
        decreases n - i,
    {
        let key = d.binaries.key_at(i);
        let current = *d.binaries.value_at(i);
        let mut item = key.clone();
        if current {
            item = item.concat(" (current)");
        }
        proof {
            let kvs = d.binaries.kvs();
            assert(kvs[i as int] == (d.binaries.key_seq()[i as int], current));
            assert(item@ == binary_item_text(kvs[i as int]));
            assert(kvs.subrange(0, i as int + 1).drop_last() =~= kvs.subrange(0, i as int));
            assert(kvs.subrange(0, i as int + 1).last() == kvs[i as int]);
        }
        if i == 0 {
            out = item;
        } else {
            out = out.concat(", ");
            out = out.concat(item.as_str());
        }
        i = i + 1;
    }
    proof {
        assert(d.binaries.kvs().subrange(0, n as int) =~= d.binaries.kvs());
    }
    out
}

} // verus!
