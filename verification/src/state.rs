//! The installed-state engine: the versioned state document, the
//! mutation API over it, the optimistic-concurrency commit check, and
//! the link-republish plan.

use crate::model::package::{ContainerView, GenericPackage, InstalledPackageContainer};
use crate::string_map::StringMap;
use crate::strutil::{opt_clone, opt_view, join_path, str_eq};
use crate::util::{binary_id_view, lemma_binary_id_injective, make_binary_id, make_package_id,
    package_id_view};
use vstd::prelude::*;

verus! {

/// A recorded package: its URN, coordinates, where its files live, and
/// which remote it came from.
#[derive(Debug)]
pub struct InstalledPackage {
    pub id: String,
    pub name: String,
    pub version: String,
    pub package_dir: String,
    pub remote_name: Option<String>,
    pub etag: Option<String>,
}

/// The mathematical value of a recorded package.
#[verifier::ext_equal]
pub ghost struct PackageView {
    pub id: Seq<char>,
    pub name: Seq<char>,
    pub version: Seq<char>,
    pub package_dir: Seq<char>,
    pub remote_name: Option<Seq<char>>,
    pub etag: Option<Seq<char>>,
}

impl View for InstalledPackage {
    type V = PackageView;

    open spec fn view(&self) -> PackageView {
        PackageView {
            id: self.id@,
            name: self.name@,
            version: self.version@,
            package_dir: self.package_dir@,
            remote_name: opt_view(self.remote_name),
            etag: opt_view(self.etag),
        }
    }
}

/// Two recorded packages are the same package when everything but the
/// on-disk location agrees: reinstalling at a new path is not a
/// semantic change.
impl PartialEq for InstalledPackage {
    fn eq(&self, other: &Self) -> (r: bool) {
        str_eq(self.id.as_str(), other.id.as_str()) && str_eq(
            self.name.as_str(),
            other.name.as_str(),
        ) && str_eq(self.version.as_str(), other.version.as_str()) && opt_str_eq_exec(
            &self.remote_name,
            &other.remote_name,
        ) && opt_str_eq_exec(&self.etag, &other.etag)
    }
}

impl vstd::std_specs::cmp::PartialEqSpecImpl for InstalledPackage {
    open spec fn obeys_eq_spec() -> bool {
        true
    }

    open spec fn eq_spec(&self, other: &Self) -> bool {
        self@.id == other@.id && self@.name == other@.name && self@.version == other@.version
            && self@.remote_name == other@.remote_name && self@.etag == other@.etag
    }
}

impl Eq for InstalledPackage {

}

impl Clone for InstalledPackage {
    fn clone(&self) -> (r: Self)
        ensures
            r@ == self@,
    {
        InstalledPackage {
            id: self.id.clone(),
            name: self.name.clone(),
            version: self.version.clone(),
            package_dir: self.package_dir.clone(),
            remote_name: opt_clone(&self.remote_name),
            etag: opt_clone(&self.etag),
        }
    }
}

fn opt_str_eq_exec(a: &Option<String>, b: &Option<String>) -> (r: bool)
    ensures
        r == (opt_view(*a) == opt_view(*b)),
{
    crate::strutil::opt_str_eq(a, b)
}

/// The package value a placed container denotes.
pub open spec fn container_package(c: ContainerView) -> PackageView {
    PackageView {
        id: package_id_view(c.package.name, c.package.version),
        name: c.package.name,
        version: c.package.version,
        package_dir: c.path_to_root,
        remote_name: c.remote_name,
        etag: c.etag,
    }
}

impl InstalledPackage {
    /// Records a placed container as a package.
    pub fn from_container(container: &InstalledPackageContainer) -> (r: Self)
        ensures
            r@ == container_package(container@),
    {
        InstalledPackage {
            id: make_package_id(
                container.package.name.as_str(),
                container.package.version.as_str(),
            ),
            name: container.package.name.clone(),
            version: container.package.version.clone(),
            package_dir: container.path_to_root.clone(),
            remote_name: opt_clone(&container.remote_name),
            etag: opt_clone(&container.etag),
        }
    }
}

impl GenericPackage for InstalledPackage {
    open spec fn spec_name(&self) -> Seq<char> {
        self.name@
    }

    open spec fn spec_version(&self) -> Seq<char> {
        self.version@
    }

    fn name(&self) -> (r: String) {
        self.name.clone()
    }

    fn version(&self) -> (r: String) {
        self.version.clone()
    }

    fn id(&self) -> (r: String) {
        make_package_id(self.name.as_str(), self.version.as_str())
    }
}

impl From<&InstalledPackageContainer> for InstalledPackage {
    fn from(container: &InstalledPackageContainer) -> (r: Self) {
        InstalledPackage::from_container(container)
    }
}

impl vstd::std_specs::convert::FromSpecImpl<&InstalledPackageContainer> for InstalledPackage {
    open spec fn obeys_from_spec() -> bool {
        false
    }

    open spec fn from_spec(t: &InstalledPackageContainer) -> Self {
        vstd::pervasive::arbitrary()
    }
}

/// A recorded binary: its URN, short name, version, executable path,
/// and the URN of the package that owns it.
#[derive(Debug)]
pub struct InstalledBinary {
    pub id: String,
    pub name: String,
    pub version: String,
    pub path_to_exec: String,
    pub package_id: String,
}

/// The mathematical value of a recorded binary.
#[verifier::ext_equal]
pub ghost struct BinaryView {
    pub id: Seq<char>,
    pub name: Seq<char>,
    pub version: Seq<char>,
    pub path_to_exec: Seq<char>,
    pub package_id: Seq<char>,
}

impl View for InstalledBinary {
    type V = BinaryView;

    open spec fn view(&self) -> BinaryView {
        BinaryView {
            id: self.id@,
            name: self.name@,
            version: self.version@,
            path_to_exec: self.path_to_exec@,
            package_id: self.package_id@,
        }
    }
}

/// Two recorded binaries are the same binary when everything but the
/// executable path agrees.
impl PartialEq for InstalledBinary {
    fn eq(&self, other: &Self) -> (r: bool) {
        str_eq(self.id.as_str(), other.id.as_str()) && str_eq(
            self.name.as_str(),
            other.name.as_str(),
        ) && str_eq(self.version.as_str(), other.version.as_str()) && str_eq(
            self.package_id.as_str(),
            other.package_id.as_str(),
        )
    }
}

impl vstd::std_specs::cmp::PartialEqSpecImpl for InstalledBinary {
    open spec fn obeys_eq_spec() -> bool {
        true
    }

    open spec fn eq_spec(&self, other: &Self) -> bool {
        self@.id == other@.id && self@.name == other@.name && self@.version == other@.version
            && self@.package_id == other@.package_id
    }
}

impl Eq for InstalledBinary {

}

impl Clone for InstalledBinary {
    fn clone(&self) -> (r: Self)
        ensures
            r@ == self@,
    {
        InstalledBinary {
            id: self.id.clone(),
            name: self.name.clone(),
            version: self.version.clone(),
            path_to_exec: self.path_to_exec.clone(),
            package_id: self.package_id.clone(),
        }
    }
}

/// The binary value a package's entrypoint denotes.
pub open spec fn binary_view_of<P: GenericPackage>(
    package: &P,
    name: Seq<char>,
    path: Seq<char>,
) -> BinaryView {
    BinaryView {
        id: binary_id_view(package.spec_name(), package.spec_version(), name),
        name: name,
        version: package.spec_version(),
        path_to_exec: path,
        package_id: package_id_view(package.spec_name(), package.spec_version()),
    }
}

impl InstalledBinary {
    /// Records one entrypoint of a package as a binary.
    pub fn new<P: GenericPackage>(package: &P, binary_name: String, path: String) -> (r: Self)
        ensures
            r@ == binary_view_of(package, binary_name@, path@),
    {
        let id = make_binary_id_for(package, binary_name.as_str());
        let version = package.version();
        let package_id = package.id();
        InstalledBinary { id, name: binary_name, version, path_to_exec: path, package_id }
    }
}

fn make_binary_id_for<P: GenericPackage>(package: &P, binary: &str) -> (r: String)
    ensures
        r@ == binary_id_view(package.spec_name(), package.spec_version(), binary@),
{
    let name = package.name();
    let version = package.version();
    make_binary_id(name.as_str(), version.as_str(), binary)
}

/// The mathematical value of the whole state document payload.
#[verifier::ext_equal]
pub ghost struct StateView {
    pub installed_packages: Map<Seq<char>, PackageView>,
    pub installed_binaries: Map<Seq<char>, BinaryView>,
    pub current_binaries: Map<Seq<char>, BinaryView>,
    pub current_packages: Map<Seq<char>, PackageView>,
}

/// The state document payload: every map the engine maintains.
#[derive(Debug)]
pub struct InstalledState {
    pub installed_packages: StringMap<InstalledPackage>,
    pub installed_binaries: StringMap<InstalledBinary>,
    pub current_binaries: StringMap<InstalledBinary>,
    pub current_packages: StringMap<InstalledPackage>,
}

impl View for InstalledState {
    type V = StateView;

    open spec fn view(&self) -> StateView {
        StateView {
            installed_packages: self.installed_packages@,
            installed_binaries: self.installed_binaries@,
            current_binaries: self.current_binaries@,
            current_packages: self.current_packages@,
        }
    }
}

/// The empty payload.
pub open spec fn empty_state() -> StateView {
    StateView {
        installed_packages: Map::empty(),
        installed_binaries: Map::empty(),
        current_binaries: Map::empty(),
        current_packages: Map::empty(),
    }
}

/// Every key is the URN of its value, every binary URN is its owning
/// package's URN extended by the binary name, current entries are
/// keyed by name, and every recorded binary's owner is an installed
/// package.
pub open spec fn wf_state(s: StateView) -> bool {
    &&& forall|k: Seq<char>| #[trigger]
        s.installed_packages.contains_key(k) ==> s.installed_packages[k].id == k
            && s.installed_packages[k].id == package_id_view(
            s.installed_packages[k].name,
            s.installed_packages[k].version,
        )
    &&& forall|k: Seq<char>| #[trigger]
        s.installed_binaries.contains_key(k) ==> s.installed_binaries[k].id == k
            && s.installed_binaries[k].id == s.installed_binaries[k].package_id + "/"@
            + s.installed_binaries[k].name && s.installed_packages.contains_key(
            s.installed_binaries[k].package_id,
        )
    &&& forall|n: Seq<char>| #[trigger]
        s.current_binaries.contains_key(n) ==> s.current_binaries[n].name == n
            && s.current_binaries[n].id == s.current_binaries[n].package_id + "/"@ + n
            && s.installed_packages.contains_key(s.current_binaries[n].package_id)
    &&& forall|n: Seq<char>| #[trigger]
        s.current_packages.contains_key(n) ==> s.current_packages[n].name == n
            && s.current_packages[n].id == package_id_view(n, s.current_packages[n].version)
}

/// The binary a container's entrypoint named `n` denotes.
pub open spec fn container_binary(c: ContainerView, n: Seq<char>) -> BinaryView {
    BinaryView {
        id: binary_id_view(c.package.name, c.package.version, n),
        name: n,
        version: c.package.version,
        path_to_exec: c.path_to_root + "/"@ + c.package.entrypoints[n],
        package_id: package_id_view(c.package.name, c.package.version),
    }
}

/// The URN under which a container's entrypoint named `n` is recorded.
pub open spec fn container_binary_key(c: ContainerView, n: Seq<char>) -> Seq<char> {
    binary_id_view(c.package.name, c.package.version, n)
}

/// The entrypoint name behind a recorded binary URN of this container.
pub open spec fn entry_name_of(c: ContainerView, k: Seq<char>) -> Seq<char> {
    choose|n: Seq<char>|
        #[trigger] c.package.entrypoints.contains_key(n) && k == container_binary_key(c, n)
}

/// All binaries a container brings, keyed by their URNs.
pub open spec fn bins_of(c: ContainerView) -> Map<Seq<char>, BinaryView> {
    Map::new(
        |k: Seq<char>|
            exists|n: Seq<char>|
                #[trigger] c.package.entrypoints.contains_key(n) && k == container_binary_key(
                    c,
                    n,
                ),
        |k: Seq<char>| container_binary(c, entry_name_of(c, k)),
    )
}

/// What recording a placed container does to the state: the package is
/// upserted under its URN, and each entrypoint's binary under its own;
/// the current tables do not move.
pub open spec fn add_spec(s: StateView, c: ContainerView) -> StateView {
    StateView {
        installed_packages: s.installed_packages.insert(
            container_package(c).id,
            container_package(c),
        ),
        installed_binaries: s.installed_binaries.union_prefer_right(bins_of(c)),
        current_binaries: s.current_binaries,
        current_packages: s.current_packages,
    }
}

/// What can go wrong inside the state store.
#[derive(Debug)]
pub enum StateError {
    UnableToObtainLock { path: String },
    StateFileOutOfDate { expected: Option<i64>, found: Option<i64> },
    PackageNotInstalled { name: String, version: String },
    NoSuchBinary { name: String, version: String },
}

/// Whether the state records a binary named `n` owned by the package
/// with URN `pid`.
pub open spec fn owned_binary(s: StateView, pid: Seq<char>, n: Seq<char>) -> bool {
    &&& s.installed_binaries.contains_key(pid + "/"@ + n)
    &&& s.installed_binaries[pid + "/"@ + n].package_id == pid
    &&& s.installed_binaries[pid + "/"@ + n].name == n
}

/// The current-binary table after the entries of the package that was
/// current under `p`'s name are evicted — only when that package is a
/// different one.
pub open spec fn evicted_current(s: StateView, p: PackageView) -> Map<Seq<char>, BinaryView> {
    if s.current_packages.contains_key(p.name) && s.current_packages[p.name].id != p.id {
        Map::new(
            |n: Seq<char>|
                s.current_binaries.contains_key(n) && s.current_binaries[n].package_id
                    != s.current_packages[p.name].id,
            |n: Seq<char>| s.current_binaries[n],
        )
    } else {
        s.current_binaries
    }
}

/// What making a package current does to the state: the old current
/// package's binaries leave the table when the package changes, every
/// binary the new package owns enters under its name, and the package
/// becomes current for its name.
pub open spec fn make_current_spec(s: StateView, c: ContainerView) -> StateView {
    let p = container_package(c);
    let cb1 = evicted_current(s, p);
    let cb2 = Map::new(
        |n: Seq<char>| cb1.contains_key(n) || owned_binary(s, p.id, n),
        |n: Seq<char>|
            if owned_binary(s, p.id, n) {
                s.installed_binaries[p.id + "/"@ + n]
            } else {
                cb1[n]
            },
    );
    StateView {
        installed_packages: s.installed_packages,
        installed_binaries: s.installed_binaries,
        current_binaries: cb2,
        current_packages: s.current_packages.insert(p.name, p),
    }
}

/// Rebuilds a current-binary table without the entries a given package
/// owns.
fn retain_binaries_not_of(map: &StringMap<InstalledBinary>, excluded_pkg: &str) -> (r: StringMap<
    InstalledBinary,
>)
    ensures
        r@ == Map::<Seq<char>, BinaryView>::new(
            |n: Seq<char>| map@.contains_key(n) && map@[n].package_id != excluded_pkg@,
            |n: Seq<char>| map@[n],
        ),
{
    let n = map.len();
    let mut out: StringMap<InstalledBinary> = StringMap::new();
    let mut i: usize = 0;
    while i < n
        invariant
            map.entry_facts(),
            n == map.key_seq().len(),
            i <= n,
            forall|x: Seq<char>| #[trigger]
                out@.contains_key(x) <==> exists|j: int|
                    0 <= j < i && map.key_seq()[j] == x && map@[x].package_id != excluded_pkg@,
            forall|x: Seq<char>| #[trigger] out@.contains_key(x) ==> out@[x] == map@[x],
        decreases n - i,
    {
        let key = map.key_at(i).clone();
        let val = map.value_at(i);
        if !str_eq(val.package_id.as_str(), excluded_pkg) {
            let val2 = val.clone();
            out.insert(key, val2);
            proof {
                assert forall|x: Seq<char>| #[trigger]
                    out@.contains_key(x) <==> exists|j: int|
                        0 <= j < i + 1 && map.key_seq()[j] == x && map@[x].package_id
                            != excluded_pkg@ by {
                    if x == map.key_seq()[i as int] {
                        assert(map.key_seq()[i as int] == x && map@[x].package_id
                            != excluded_pkg@);
                    }
                }
            }
        } else {
            proof {
                assert forall|x: Seq<char>| #[trigger]
                    out@.contains_key(x) <==> exists|j: int|
                        0 <= j < i + 1 && map.key_seq()[j] == x && map@[x].package_id
                            != excluded_pkg@ by {
                    if !out@.contains_key(x) && (exists|j: int|
                        0 <= j < i + 1 && map.key_seq()[j] == x && map@[x].package_id
                            != excluded_pkg@) {
                        let j = choose|j: int|
                            0 <= j < i + 1 && map.key_seq()[j] == x && map@[x].package_id
                                != excluded_pkg@;
                        assert(j == i as int);
                        assert(map@[x] == map.kvs()[i as int].1);
                    }
                }
            }
        }
        i = i + 1;
    }
    proof {
        let target = Map::<Seq<char>, BinaryView>::new(
            |x: Seq<char>| map@.contains_key(x) && map@[x].package_id != excluded_pkg@,
            |x: Seq<char>| map@[x],
        );
        assert forall|x: Seq<char>| #[trigger]
            out@.contains_key(x) <==> target.contains_key(x) by {
            if map@.contains_key(x) && map@[x].package_id != excluded_pkg@ {
                let j = choose|j: int|
                    0 <= j < map.key_seq().len() && map.key_seq()[j] == x;
                assert(0 <= j < n && map.key_seq()[j] == x && map@[x].package_id != excluded_pkg@);
            }
            if out@.contains_key(x) {
                let j = choose|j: int|
                    0 <= j < n && map.key_seq()[j] == x && map@[x].package_id != excluded_pkg@;
                assert(map@.contains_key(map.key_seq()[j]));
            }
        }
        assert(out@ =~= target);
    }
    out
}

impl InstalledState {
    /// Upserts a placed package and one binary per entrypoint.
    /// Existing entries under the same URNs are replaced; the current
    /// tables are not touched.
    pub fn add_installed_package(&mut self, container: &InstalledPackageContainer)
        requires
            wf_state(old(self)@),
        ensures
            final(self)@ == add_spec(old(self)@, container@),
            wf_state(final(self)@),
    {
        let ghost c = container@;
        let ghost s0 = old(self)@;
        let package = InstalledPackage::from_container(container);
        self.installed_packages.insert(package.id.clone(), package);
        let eps = &container.package.entrypoints;
        let n = eps.len();
        let mut i: usize = 0;
        while i < n
            invariant
                n == eps.key_seq().len(),
                i <= n,
                eps.entry_facts(),
                eps@ == c.package.entrypoints,
                container@ == c,
                self@.installed_packages == add_spec(s0, c).installed_packages,
                self@.current_binaries == s0.current_binaries,
                self@.current_packages == s0.current_packages,
                forall|k: Seq<char>| #[trigger]
                    self@.installed_binaries.contains_key(k) <==> (
                    s0.installed_binaries.contains_key(k) || exists|j: int|
                        0 <= j < i && k == container_binary_key(c, eps.key_seq()[j])),
                forall|j: int|
                    0 <= j < i ==> self@.installed_binaries[container_binary_key(
                        c,
                        #[trigger] eps.key_seq()[j],
                    )] == container_binary(c, eps.key_seq()[j]),
                forall|k: Seq<char>|
                    s0.installed_binaries.contains_key(k) && !(exists|j: int|
                        0 <= j < i && k == container_binary_key(c, #[trigger] eps.key_seq()[j]))
                        ==> #[trigger] self@.installed_binaries[k] == s0.installed_binaries[k],
            decreases n - i,
        {
            let binary_name = eps.key_at(i).clone();
            let relative_path = eps.value_at(i).clone();
            let binary_path = join_path(container.path_to_root.as_str(), relative_path.as_str());
            let binary = InstalledBinary::new(&container.package, binary_name, binary_path);
            let ghost prev = self@.installed_binaries;
            self.installed_binaries.insert(binary.id.clone(), binary);
            proof {
                let nm = eps.key_seq()[i as int];
                assert(c.package.entrypoints.contains_key(nm));
                assert(c.package.entrypoints[nm] == relative_path@);
                assert(binary@ == container_binary(c, nm));
                assert(binary.id@ == container_binary_key(c, nm));
                assert forall|j: int|
                    0 <= j < i + 1 implies self@.installed_binaries[container_binary_key(
                    c,
                    #[trigger] eps.key_seq()[j],
                )] == container_binary(c, eps.key_seq()[j]) by {
                    if j < i {
                        if container_binary_key(c, eps.key_seq()[j]) == container_binary_key(
                            c,
                            nm,
                        ) {
                            lemma_binary_id_injective(
                                c.package.name,
                                c.package.version,
                                eps.key_seq()[j],
                                nm,
                            );
                        }
                    }
                }
            }
            i = i + 1;
        }
        proof {
            let fin = self@.installed_binaries;
            let target = add_spec(s0, c).installed_binaries;
            assert forall|k: Seq<char>| #[trigger]
                fin.contains_key(k) <==> target.contains_key(k) by {
                assert(target.contains_key(k) <==> (s0.installed_binaries.contains_key(k) || exists|
                    nm: Seq<char>,
                |
                    #[trigger] c.package.entrypoints.contains_key(nm) && k == container_binary_key(
                        c,
                        nm,
                    )));
                assert((exists|j: int|
                    0 <= j < n && k == container_binary_key(c, #[trigger] eps.key_seq()[j])) <==> (
                exists|nm: Seq<char>|
                    #[trigger] c.package.entrypoints.contains_key(nm) && k == container_binary_key(
                        c,
                        nm,
                    ))) by {
                    if exists|j: int|
                        0 <= j < n && k == container_binary_key(c, #[trigger] eps.key_seq()[j]) {
                        let j = choose|j: int|
                            0 <= j < n && k == container_binary_key(c, #[trigger] eps.key_seq()[j]);
                        assert(c.package.entrypoints.contains_key(eps.key_seq()[j]));
                    }
                    if exists|nm: Seq<char>|
                        #[trigger] c.package.entrypoints.contains_key(nm)
                            && k == container_binary_key(c, nm) {
                        let nm = choose|nm: Seq<char>|
                            #[trigger] c.package.entrypoints.contains_key(nm)
                                && k == container_binary_key(c, nm);
                        let j = choose|j: int|
                            0 <= j < eps.key_seq().len() && eps.key_seq()[j] == nm;
                        assert(0 <= j < n && k == container_binary_key(c, eps.key_seq()[j]));
                    }
                }
            }
            assert forall|k: Seq<char>| #[trigger]
                fin.contains_key(k) implies fin[k] == target[k] by {
                if exists|j: int|
                    0 <= j < n && k == container_binary_key(c, #[trigger] eps.key_seq()[j]) {
                    let j = choose|j: int|
                        0 <= j < n && k == container_binary_key(c, #[trigger] eps.key_seq()[j]);
                    let nm = eps.key_seq()[j];
                    assert(fin[k] == container_binary(c, nm));
                    assert(bins_of(c).contains_key(k));
                    let nm2 = entry_name_of(c, k);
                    assert(c.package.entrypoints.contains_key(nm2) && k == container_binary_key(
                        c,
                        nm2,
                    ));
                    lemma_binary_id_injective(c.package.name, c.package.version, nm, nm2);
                    assert(target[k] == container_binary(c, nm2));
                } else {
                    assert(!bins_of(c).contains_key(k)) by {
                        if bins_of(c).contains_key(k) {
                            let nm = choose|nm: Seq<char>|
                                #[trigger] c.package.entrypoints.contains_key(nm)
                                    && k == container_binary_key(c, nm);
                            let j = choose|j: int|
                                0 <= j < eps.key_seq().len() && eps.key_seq()[j] == nm;
                        }
                    }
                    assert(fin[k] == s0.installed_binaries[k]);
                }
            }
            assert(fin =~= target);
            assert(self@ =~= add_spec(s0, c));
            assert(wf_state(self@)) by {
                assert forall|k: Seq<char>| #[trigger]
                    self@.installed_binaries.contains_key(k) implies self@.installed_binaries[k].id
                    == k && self@.installed_binaries[k].id
                    == self@.installed_binaries[k].package_id + "/"@
                    + self@.installed_binaries[k].name && self@.installed_packages.contains_key(
                    self@.installed_binaries[k].package_id,
                ) by {
                    if bins_of(c).contains_key(k) {
                        let nm = entry_name_of(c, k);
                        assert(self@.installed_binaries[k] == container_binary(c, nm));
                    }
                }
            }
        }
    }

    /// Makes a package the current one for its name.  Fails when the
    /// package is not installed.  On success every binary name the
    /// package owns points at its binary, the previously current
    /// package's entries are gone when the package changed, and the
    /// package is current for its name.
    pub fn make_package_current(&mut self, container: &InstalledPackageContainer) -> (r: Result<
        (),
        StateError,
    >)
        requires
            wf_state(old(self)@),
        ensures
            wf_state(final(self)@),
            match r {
                Result::Ok(()) => old(self)@.installed_packages.contains_key(
                    container_package(container@).id,
                ) && final(self)@ == make_current_spec(old(self)@, container@),
                Result::Err(e) => {
                    &&& !old(self)@.installed_packages.contains_key(
                        container_package(container@).id,
                    )
                    &&& final(self)@ == old(self)@
                    &&& (e matches StateError::PackageNotInstalled { name, version } && name@
                        == container@.package.name && version@ == container@.package.version)
                },
            },
    {
        let ghost c = container@;
        let ghost s0 = old(self)@;
        let package = InstalledPackage::from_container(container);
        let ghost p = container_package(c);
        if !self.installed_packages.contains_key(package.id.as_str()) {
            return Result::Err(
                StateError::PackageNotInstalled {
                    name: container.package.name.clone(),
                    version: container.package.version.clone(),
                },
            );
        }
        let mut evict: Option<String> = Option::None;
        match self.current_packages.get(package.name.as_str()) {
            Option::Some(old_pkg) => {
                if !str_eq(old_pkg.id.as_str(), package.id.as_str()) {
                    evict = Option::Some(old_pkg.id.clone());
                }
            },
            Option::None => {},
        }
        match evict {
            Option::Some(old_id) => {
                proof {
                    assert(s0.current_packages.contains_key(p.name) && s0.current_packages[
                        p.name
                    ].id == old_id@ && old_id@ != p.id);
                }
                let filtered = retain_binaries_not_of(&self.current_binaries, old_id.as_str());
                self.current_binaries = filtered;
            },
            Option::None => {},
        }
        proof {
            assert(self@.current_binaries =~= evicted_current(s0, p));
        }
        let ghost cb1 = self@.current_binaries;
        let m = self.installed_binaries.len();
        let mut j: usize = 0;
        while j < m
            invariant
                wf_state(s0),
                self@.installed_packages == s0.installed_packages,
                self@.installed_binaries == s0.installed_binaries,
                self@.current_packages == s0.current_packages,
                self.installed_binaries.entry_facts(),
                m == self.installed_binaries.key_seq().len(),
                j <= m,
                p == container_package(c),
                str_eq_key(package, p),
                forall|x: Seq<char>| #[trigger]
                    cb1.contains_key(x) ==> self@.current_binaries.contains_key(x),
                forall|x: Seq<char>| #[trigger]
                    self@.current_binaries.contains_key(x) ==> cb1.contains_key(x) || exists|t: int|
                        0 <= t < j && #[trigger] self.installed_binaries.kvs()[t].1.package_id
                            == p.id && self.installed_binaries.kvs()[t].1.name == x,
                forall|t: int|
                    0 <= t < j && #[trigger] self.installed_binaries.kvs()[t].1.package_id == p.id
                        ==> self@.current_binaries.contains_key(
                        self.installed_binaries.kvs()[t].1.name,
                    ) && self@.current_binaries[self.installed_binaries.kvs()[t].1.name]
                        == self.installed_binaries.kvs()[t].1,
                forall|x: Seq<char>|
                    #[trigger] self@.current_binaries.contains_key(x) && !(exists|t: int|
                        0 <= t < j && #[trigger] self.installed_binaries.kvs()[t].1.package_id
                            == p.id && self.installed_binaries.kvs()[t].1.name == x)
                        ==> cb1.contains_key(x) && self@.current_binaries[x] == cb1[x],
            decreases m - j,
        {
            let ghost prev = self@.current_binaries;
            let b = self.installed_binaries.value_at(j).clone();
            proof {
                assert(b@ == self.installed_binaries.kvs()[j as int].1);
            }
            if str_eq(b.package_id.as_str(), package.id.as_str()) {
                let name2 = b.name.clone();
                self.current_binaries.insert(name2, b);
                proof {
                    let kvs = self.installed_binaries.kvs();
                    let bt = kvs[j as int].1;
                    assert(bt.package_id == p.id);
                    assert(self@.current_binaries == prev.insert(bt.name, bt));
                    assert forall|t: int|
                        0 <= t < j + 1 && #[trigger] kvs[t].1.package_id
                            == p.id implies self@.current_binaries.contains_key(kvs[t].1.name)
                        && self@.current_binaries[kvs[t].1.name] == kvs[t].1 by {
                        if t < j && kvs[t].1.name == bt.name {
                            let ks = self.installed_binaries.key_seq();
                            assert(s0.installed_binaries.contains_key(ks[t])
                                && s0.installed_binaries[ks[t]] == kvs[t].1);
                            assert(s0.installed_binaries.contains_key(ks[j as int])
                                && s0.installed_binaries[ks[j as int]] == bt);
                            assert(ks[t] == kvs[t].1.package_id + "/"@ + kvs[t].1.name);
                            assert(ks[j as int] == bt.package_id + "/"@ + bt.name);
                            assert(ks[t] == ks[j as int]);
                        }
                    }
                    assert forall|x: Seq<char>| #[trigger]
                        self@.current_binaries.contains_key(x) implies cb1.contains_key(x) || (
                    exists|t: int|
                        0 <= t < j + 1 && #[trigger] kvs[t].1.package_id == p.id && kvs[t].1.name
                            == x) by {
                        if x == bt.name {
                            assert(0 <= (j as int) < j + 1 && kvs[j as int].1.package_id == p.id
                                && kvs[j as int].1.name == x);
                        } else {
                            assert(prev.contains_key(x));
                        }
                    }
                    assert forall|x: Seq<char>|
                        #[trigger] self@.current_binaries.contains_key(x) && !(exists|t: int|
                            0 <= t < j + 1 && #[trigger] kvs[t].1.package_id == p.id
                                && kvs[t].1.name == x) implies cb1.contains_key(x)
                        && self@.current_binaries[x] == cb1[x] by {
                        if x != bt.name {
                            assert(self@.current_binaries[x] == prev[x]);
                        } else {
                            assert(0 <= (j as int) < j + 1 && kvs[j as int].1.package_id == p.id
                                && kvs[j as int].1.name == x);
                        }
                    }
                }
            } else {
                proof {
                    let kvs = self.installed_binaries.kvs();
                    assert(kvs[j as int].1.package_id != p.id);
                    assert forall|x: Seq<char>| #[trigger]
                        self@.current_binaries.contains_key(x) implies cb1.contains_key(x) || (
                    exists|t: int|
                        0 <= t < j + 1 && #[trigger] kvs[t].1.package_id == p.id && kvs[t].1.name
                            == x) by {
                        if !cb1.contains_key(x) {
                            let t = choose|t: int|
                                0 <= t < j && #[trigger] kvs[t].1.package_id == p.id
                                    && kvs[t].1.name == x;
                            assert(0 <= t < j + 1 && kvs[t].1.package_id == p.id && kvs[t].1.name
                                == x);
                        }
                    }
                    assert forall|x: Seq<char>|
                        #[trigger] self@.current_binaries.contains_key(x) && !(exists|t: int|
                            0 <= t < j + 1 && #[trigger] kvs[t].1.package_id == p.id
                                && kvs[t].1.name == x) implies cb1.contains_key(x)
                        && self@.current_binaries[x] == cb1[x] by {
                        assert(!(exists|t: int|
                            0 <= t < j && #[trigger] kvs[t].1.package_id == p.id && kvs[t].1.name
                                == x));
                    }
                }
            }
            j = j + 1;
        }
        proof {
            let fin = self@.current_binaries;
            let cb2 = make_current_spec(s0, c).current_binaries;
            let kvs = self.installed_binaries.kvs();
            let ks = self.installed_binaries.key_seq();
            assert forall|x: Seq<char>| #[trigger] fin.contains_key(x) <==> cb2.contains_key(
                x,
            ) by {
                assert((exists|t: int|
                    0 <= t < m && #[trigger] kvs[t].1.package_id == p.id && kvs[t].1.name == x)
                    <==> owned_binary(s0, p.id, x)) by {
                    if exists|t: int|
                        0 <= t < m && #[trigger] kvs[t].1.package_id == p.id && kvs[t].1.name
                            == x {
                        let t = choose|t: int|
                            0 <= t < m && #[trigger] kvs[t].1.package_id == p.id && kvs[t].1.name
                                == x;
                        assert(s0.installed_binaries.contains_key(ks[t])
                            && s0.installed_binaries[ks[t]] == kvs[t].1);
                        assert(ks[t] == p.id + "/"@ + x);
                    }
                    if owned_binary(s0, p.id, x) {
                        let k = p.id + "/"@ + x;
                        assert(s0.installed_binaries.contains_key(k));
                        let t = choose|t: int| 0 <= t < ks.len() && ks[t] == k;
                        assert(kvs[t].1 == s0.installed_binaries[k]);
                        assert(0 <= t < m && kvs[t].1.package_id == p.id && kvs[t].1.name == x);
                    }
                }
                if fin.contains_key(x) {
                    assert(self@.current_binaries.contains_key(x));
                    assert(cb1.contains_key(x) || (exists|t: int|
                        0 <= t < m && #[trigger] kvs[t].1.package_id == p.id && kvs[t].1.name
                            == x));
                    assert(cb1.contains_key(x) || owned_binary(s0, p.id, x));
                }
                if owned_binary(s0, p.id, x) {
                    let t = choose|t: int|
                        0 <= t < m && #[trigger] kvs[t].1.package_id == p.id && kvs[t].1.name == x;
                    assert(fin.contains_key(kvs[t].1.name));
                }
                if cb1.contains_key(x) {
                    assert(fin.contains_key(x));
                }
            }
            assert forall|x: Seq<char>| #[trigger] fin.contains_key(x) implies fin[x] == cb2[x] by {
                if owned_binary(s0, p.id, x) {
                    let k = p.id + "/"@ + x;
                    let t = choose|t: int| 0 <= t < ks.len() && ks[t] == k;
                    assert(kvs[t].1 == s0.installed_binaries[k]);
                    assert(kvs[t].1.package_id == p.id && kvs[t].1.name == x);
                    assert(fin[x] == kvs[t].1);
                } else {
                    assert(!(exists|t: int|
                        0 <= t < m && #[trigger] kvs[t].1.package_id == p.id && kvs[t].1.name
                            == x)) by {
                        if exists|t: int|
                            0 <= t < m && #[trigger] kvs[t].1.package_id == p.id && kvs[t].1.name
                                == x {
                            let t = choose|t: int|
                                0 <= t < m && #[trigger] kvs[t].1.package_id == p.id
                                    && kvs[t].1.name == x;
                            assert(s0.installed_binaries.contains_key(ks[t])
                                && s0.installed_binaries[ks[t]] == kvs[t].1);
                            assert(ks[t] == p.id + "/"@ + x);
                        }
                    }
                }
            }
            assert(fin =~= cb2);
            assert forall|x: Seq<char>| #[trigger]
                fin.contains_key(x) implies fin[x].name == x && fin[x].id == fin[x].package_id
                + "/"@ + x && s0.installed_packages.contains_key(fin[x].package_id) by {
                if owned_binary(s0, p.id, x) {
                    assert(fin[x] == s0.installed_binaries[p.id + "/"@ + x]);
                } else {
                    assert(evicted_current(s0, p).contains_key(x));
                    assert(s0.current_binaries.contains_key(x));
                    assert(fin[x] == s0.current_binaries[x]);
                }
            }
        }
        let ghost cb_done = self@.current_binaries;
        let name3 = package.name.clone();
        self.current_packages.insert(name3, package);
        proof {
            assert(self@.current_binaries == cb_done);
            assert(self@ =~= make_current_spec(s0, c));
            assert(wf_state(self@));
        }
        Result::Ok(())
    }
}

/// Whether an exec package value denotes a given package view; keeps
/// loop invariants short.
pub open spec fn str_eq_key(package: InstalledPackage, p: PackageView) -> bool {
    package@ == p
}

/// What removing a package does to the state: the package leaves the
/// table, and so does every binary it owns, installed or current; the
/// current-package table keeps its (now dangling) name entry.
pub open spec fn remove_spec(s: StateView, id: Seq<char>) -> StateView {
    StateView {
        installed_packages: s.installed_packages.remove(id),
        installed_binaries: Map::new(
            |k: Seq<char>|
                s.installed_binaries.contains_key(k) && s.installed_binaries[k].package_id != id,
            |k: Seq<char>| s.installed_binaries[k],
        ),
        current_binaries: Map::new(
            |n: Seq<char>|
                s.current_binaries.contains_key(n) && s.current_binaries[n].package_id != id,
            |n: Seq<char>| s.current_binaries[n],
        ),
        current_packages: s.current_packages,
    }
}

/// Removing every package of a list of URNs, front to back.
pub open spec fn remove_all_spec(s: StateView, ids: Seq<Seq<char>>) -> StateView
    decreases ids.len(),
{
    if ids.len() == 0 {
        s
    } else {
        remove_all_spec(remove_spec(s, ids[0]), ids.skip(1))
    }
}

/// The binary-name table of a package description: one key per binary
/// the package owns, true exactly when that name currently dispatches
/// to this package.
pub open spec fn description_bins(s: StateView, pid: Seq<char>) -> Map<Seq<char>, bool> {
    Map::new(
        |n: Seq<char>|
            exists|k: Seq<char>|
                #[trigger] s.installed_binaries.contains_key(k) && s.installed_binaries[
                    k
                ].package_id == pid && s.installed_binaries[k].name == n,
        |n: Seq<char>|
            s.current_binaries.contains_key(n) && s.current_binaries[n].package_id == pid,
    )
}

/// A read-only account of one installed package.
#[derive(Debug)]
pub struct PackageDescription {
    pub name: String,
    pub version: String,
    pub binaries: StringMap<bool>,
    pub remote_name: Option<String>,
    pub etag: Option<String>,
    pub package_id: String,
}

/// The mathematical value of a package description.
#[verifier::ext_equal]
pub ghost struct DescriptionView {
    pub name: Seq<char>,
    pub version: Seq<char>,
    pub binaries: Map<Seq<char>, bool>,
    pub remote_name: Option<Seq<char>>,
    pub etag: Option<Seq<char>>,
    pub package_id: Seq<char>,
}

impl View for PackageDescription {
    type V = DescriptionView;

    open spec fn view(&self) -> DescriptionView {
        DescriptionView {
            name: self.name@,
            version: self.version@,
            binaries: self.binaries@,
            remote_name: opt_view(self.remote_name),
            etag: opt_view(self.etag),
            package_id: self.package_id@,
        }
    }
}

/// The description a state gives of a package.
pub open spec fn description_of(s: StateView, p: PackageView) -> DescriptionView {
    DescriptionView {
        name: p.name,
        version: p.version,
        binaries: description_bins(s, p.id),
        remote_name: p.remote_name,
        etag: p.etag,
        package_id: p.id,
    }
}

impl InstalledState {
    /// An empty payload: nothing installed, nothing current.
    pub fn new() -> (r: Self)
        ensures
            r@ == empty_state(),
            wf_state(r@),
    {
        InstalledState {
            installed_packages: StringMap::new(),
            installed_binaries: StringMap::new(),
            current_binaries: StringMap::new(),
            current_packages: StringMap::new(),
        }
    }

    /// Removes a package and every binary it owns, installed or
    /// current.  The current-package table is left alone, as removal
    /// does not elect a new current version.
    pub fn remove_package_by_id(&mut self, id: &str)
        requires
            wf_state(old(self)@),
        ensures
            final(self)@ == remove_spec(old(self)@, id@),
            wf_state(final(self)@),
    {
        let ghost s0 = old(self)@;
        let fb = retain_binaries_not_of(&self.installed_binaries, id);
        self.installed_binaries = fb;
        let fc = retain_binaries_not_of(&self.current_binaries, id);
        self.current_binaries = fc;
        self.installed_packages.remove(id);
        proof {
            assert(self@ =~= remove_spec(s0, id@));
        }
    }

    /// Removes every package of a list.
    pub fn remove_packages(&mut self, packages_to_remove: Vec<InstalledPackage>)
        requires
            wf_state(old(self)@),
        ensures
            final(self)@ == remove_all_spec(
                old(self)@,
                packages_to_remove@.map_values(|p: InstalledPackage| p@.id),
            ),
            wf_state(final(self)@),
    {
        let ghost s0 = old(self)@;
        let ghost ids = packages_to_remove@.map_values(|p: InstalledPackage| p@.id);
        proof {
            assert(ids.skip(0) =~= ids);
        }
        let n = packages_to_remove.len();
        let mut i: usize = 0;
        while i < n
            invariant
                n == packages_to_remove@.len(),
                i <= n,
                ids == packages_to_remove@.map_values(|p: InstalledPackage| p@.id),
                wf_state(self@),
                remove_all_spec(self@, ids.skip(i as int)) == remove_all_spec(s0, ids),
            decreases n - i,
        {
            let ghost before = self@;
            self.remove_package_by_id(packages_to_remove[i].id.as_str());
            proof {
                assert(ids.skip(i as int)[0] == ids[i as int]);
                assert(ids.skip(i as int).skip(1) =~= ids.skip(i as int + 1));
                assert(remove_all_spec(before, ids.skip(i as int)) == remove_all_spec(
                    remove_spec(before, ids[i as int]),
                    ids.skip(i as int + 1),
                ));
            }
            i = i + 1;
        }
        proof {
            assert(ids.skip(n as int) =~= Seq::<Seq<char>>::empty());
        }
    }

    /// Describes one package: which binary names it owns, and which of
    /// them currently dispatch to it.
    pub fn describe_package(&self, package: &InstalledPackage) -> (r: PackageDescription)
        ensures
            r@ == description_of(self@, package@),
    {
        let ghost pid = package@.id;
        let mut binaries: StringMap<bool> = StringMap::new();
        let m = self.installed_binaries.len();
        let mut i: usize = 0;
        while i < m
            invariant
                self.installed_binaries.entry_facts(),
                m == self.installed_binaries.key_seq().len(),
                i <= m,
                pid == package@.id,
                forall|x: Seq<char>| #[trigger]
                    binaries@.contains_key(x) <==> exists|t: int|
                        0 <= t < i && #[trigger] self.installed_binaries.kvs()[t].1.package_id
                            == pid && self.installed_binaries.kvs()[t].1.name == x,
                forall|x: Seq<char>| #[trigger]
                    binaries@.contains_key(x) ==> binaries@[x] == false,
            decreases m - i,
        {
            let b = self.installed_binaries.value_at(i);
            if str_eq(b.package_id.as_str(), package.id.as_str()) {
                let nm = b.name.clone();
                binaries.insert(nm, false);
                proof {
                    let kvs = self.installed_binaries.kvs();
                    assert forall|x: Seq<char>| #[trigger]
                        binaries@.contains_key(x) <==> exists|t: int|
                            0 <= t < i + 1 && #[trigger] kvs[t].1.package_id == pid
                                && kvs[t].1.name == x by {
                        if x == kvs[i as int].1.name {
                            assert(0 <= (i as int) < i + 1 && kvs[i as int].1.package_id == pid
                                && kvs[i as int].1.name == x);
                        }
                    }
                }
            } else {
                proof {
                    let kvs = self.installed_binaries.kvs();
                    assert forall|x: Seq<char>| #[trigger]
                        binaries@.contains_key(x) <==> exists|t: int|
                            0 <= t < i + 1 && #[trigger] kvs[t].1.package_id == pid
                                && kvs[t].1.name == x by {
                        if !binaries@.contains_key(x) && (exists|t: int|
                            0 <= t < i + 1 && #[trigger] kvs[t].1.package_id == pid
                                && kvs[t].1.name == x) {
                            let t = choose|t: int|
                                0 <= t < i + 1 && #[trigger] kvs[t].1.package_id == pid
                                    && kvs[t].1.name == x;
                            assert(t == i as int);
                        }
                    }
                }
            }
            i = i + 1;
        }
        let ghost dom0 = binaries@;
        let cbn = self.current_binaries.len();
        let mut j: usize = 0;
        while j < cbn
            invariant
                self.current_binaries.entry_facts(),
                cbn == self.current_binaries.key_seq().len(),
                j <= cbn,
                pid == package@.id,
                forall|x: Seq<char>|
                    #[trigger] binaries@.contains_key(x) <==> dom0.contains_key(x),
                forall|x: Seq<char>| #[trigger]
                    binaries@.contains_key(x) ==> binaries@[x] == ((exists|t: int|
                        0 <= t < j && #[trigger] self.current_binaries.key_seq()[t] == x)
                        && self@.current_binaries.contains_key(x)
                        && self@.current_binaries[x].package_id == pid),
            decreases cbn - j,
        {
            let key = self.current_binaries.key_at(j).clone();
            let b = self.current_binaries.value_at(j);
            if str_eq(b.package_id.as_str(), package.id.as_str()) {
                if binaries.contains_key(key.as_str()) {
                    let ghost prevb = binaries@;
                    binaries.insert(key, true);
                    proof {
                        let ks = self.current_binaries.key_seq();
                        assert forall|x: Seq<char>| #[trigger]
                            binaries@.contains_key(x) implies binaries@[x] == ((exists|t: int|
                            0 <= t < j + 1 && #[trigger] ks[t] == x)
                            && self@.current_binaries.contains_key(x)
                            && self@.current_binaries[x].package_id == pid) by {
                            if x == ks[j as int] {
                                assert(0 <= (j as int) < j + 1 && ks[j as int] == x);
                            }
                        }
                    }
                } else {
                    proof {
                        let ks = self.current_binaries.key_seq();
                        assert forall|x: Seq<char>| #[trigger]
                            binaries@.contains_key(x) implies binaries@[x] == ((exists|t: int|
                            0 <= t < j + 1 && #[trigger] ks[t] == x)
                            && self@.current_binaries.contains_key(x)
                            && self@.current_binaries[x].package_id == pid) by {
                            if x != ks[j as int] && (exists|t: int|
                                0 <= t < j + 1 && #[trigger] ks[t] == x) {
                                let t = choose|t: int| 0 <= t < j + 1 && #[trigger] ks[t] == x;
                                assert(0 <= t < j && ks[t] == x);
                            }
                        }
                    }
                }
            } else {
                proof {
                    let ks = self.current_binaries.key_seq();
                    assert forall|x: Seq<char>| #[trigger]
                        binaries@.contains_key(x) implies binaries@[x] == ((exists|t: int|
                        0 <= t < j + 1 && #[trigger] ks[t] == x)
                        && self@.current_binaries.contains_key(x)
                        && self@.current_binaries[x].package_id == pid) by {
                        if x == ks[j as int] {
                            assert(self@.current_binaries[x] == self.current_binaries.kvs()[
                                j as int
                            ].1);
                        } else {
                            if exists|t: int| 0 <= t < j + 1 && #[trigger] ks[t] == x {
                                let t = choose|t: int| 0 <= t < j + 1 && #[trigger] ks[t] == x;
                                assert(0 <= t < j && ks[t] == x);
                            }
                        }
                    }
                }
            }
            j = j + 1;
        }
        proof {
            let target = description_bins(self@, pid);
            assert forall|x: Seq<char>| #[trigger]
                binaries@.contains_key(x) <==> target.contains_key(x) by {
                let kvs = self.installed_binaries.kvs();
                let ks = self.installed_binaries.key_seq();
                if exists|t: int|
                    0 <= t < m && #[trigger] kvs[t].1.package_id == pid && kvs[t].1.name == x {
                    let t = choose|t: int|
                        0 <= t < m && #[trigger] kvs[t].1.package_id == pid && kvs[t].1.name == x;
                    assert(self@.installed_binaries.contains_key(ks[t])
                        && self@.installed_binaries[ks[t]] == kvs[t].1);
                }
                if target.contains_key(x) {
                    let k = choose|k: Seq<char>|
                        #[trigger] self@.installed_binaries.contains_key(k)
                            && self@.installed_binaries[k].package_id == pid
                            && self@.installed_binaries[k].name == x;
                    let t = choose|t: int| 0 <= t < ks.len() && ks[t] == k;
                    assert(kvs[t].1 == self@.installed_binaries[k]);
                    assert(0 <= t < m && kvs[t].1.package_id == pid && kvs[t].1.name == x);
                }
            }
            assert forall|x: Seq<char>| #[trigger]
                binaries@.contains_key(x) implies binaries@[x] == target[x] by {
                let ks = self.current_binaries.key_seq();
                if self@.current_binaries.contains_key(x) {
                    let t = choose|t: int| 0 <= t < ks.len() && ks[t] == x;
                    assert(0 <= t < cbn && ks[t] == x);
                }
            }
            assert(binaries@ =~= target);
        }
        PackageDescription {
            name: package.name.clone(),
            version: package.version.clone(),
            binaries,
            remote_name: opt_clone(&package.remote_name),
            etag: opt_clone(&package.etag),
            package_id: package.id.clone(),
        }
    }

    /// The executable path the given binary name currently dispatches
    /// to; fails exactly when no binary of that name is current.
    pub fn get_current_binary_path(&self, name: &str) -> (r: Result<String, StateError>)
        ensures
            match r {
                Result::Ok(p) => self@.current_binaries.contains_key(name@) && p@
                    == self@.current_binaries[name@].path_to_exec,
                Result::Err(e) => {
                    &&& !self@.current_binaries.contains_key(name@)
                    &&& (e matches StateError::NoSuchBinary { name: n, version } && n@ == name@
                        && version@ == "CURRENT"@)
                },
            },
    {
        match self.current_binaries.get(name) {
            Option::Some(binary) => Result::Ok(binary.path_to_exec.clone()),
            Option::None => Result::Err(
                StateError::NoSuchBinary {
                    name: String::from_str(name),
                    version: String::from_str("CURRENT"),
                },
            ),
        }
    }

    /// The executable path of some installed binary with the given
    /// name and version; fails exactly when none is installed.
    pub fn get_binary_path(&self, name: &str, version: &str) -> (r: Result<String, StateError>)
        ensures
            match r {
                Result::Ok(p) => exists|k: Seq<char>|
                    #[trigger] self@.installed_binaries.contains_key(k)
                        && self@.installed_binaries[k].name == name@ && self@.installed_binaries[
                        k
                    ].version == version@ && p@ == self@.installed_binaries[k].path_to_exec,
                Result::Err(e) => {
                    &&& !(exists|k: Seq<char>|
                        #[trigger] self@.installed_binaries.contains_key(k)
                            && self@.installed_binaries[k].name == name@
                            && self@.installed_binaries[k].version == version@)
                    &&& (e matches StateError::NoSuchBinary { name: n, version: v } && n@ == name@
                        && v@ == version@)
                },
            },
    {
        let m = self.installed_binaries.len();
        let mut i: usize = 0;
        while i < m
            invariant
                self.installed_binaries.entry_facts(),
                m == self.installed_binaries.key_seq().len(),
                i <= m,
                forall|t: int|
                    0 <= t < i ==> !(#[trigger] self.installed_binaries.kvs()[t].1.name == name@
                        && self.installed_binaries.kvs()[t].1.version == version@),
            decreases m - i,
        {
            let b = self.installed_binaries.value_at(i);
            if str_eq(b.name.as_str(), name) && str_eq(b.version.as_str(), version) {
                proof {
                    let ks = self.installed_binaries.key_seq();
                    assert(self@.installed_binaries.contains_key(ks[i as int])
                        && self@.installed_binaries[ks[i as int]]
                        == self.installed_binaries.kvs()[i as int].1);
                }
                return Result::Ok(b.path_to_exec.clone());
            }
            i = i + 1;
        }
        proof {
            let ks = self.installed_binaries.key_seq();
            let kvs = self.installed_binaries.kvs();
            if exists|k: Seq<char>|
                #[trigger] self@.installed_binaries.contains_key(k) && self@.installed_binaries[
                    k
                ].name == name@ && self@.installed_binaries[k].version == version@ {
                let k = choose|k: Seq<char>|
                    #[trigger] self@.installed_binaries.contains_key(k) && self@.installed_binaries[
                        k
                    ].name == name@ && self@.installed_binaries[k].version == version@;
                let t = choose|t: int| 0 <= t < ks.len() && ks[t] == k;
                assert(kvs[t].1 == self@.installed_binaries[k]);
                assert(!(kvs[t].1.name == name@ && kvs[t].1.version == version@));
            }
        }
        Result::Err(
            StateError::NoSuchBinary {
                name: String::from_str(name),
                version: String::from_str(version),
            },
        )
    }
}

/// Every current entry is backed by a recorded binary of the same
/// owner and name.  Every state the operations build satisfies this;
/// it is what the current-binary closure law rests on.
pub open spec fn current_backed(s: StateView) -> bool {
    forall|n: Seq<char>| #[trigger]
        s.current_binaries.contains_key(n) ==> owned_binary(s, s.current_binaries[n].package_id, n)
}

impl InstalledState {
    /// Checks the well-formedness of a payload that arrived from
    /// outside, such as a freshly parsed state document: exactly the
    /// condition the mutation API requires.
    pub fn check_wf(&self) -> (r: bool)
        ensures
            r == wf_state(self@),
    {
        let ghost s = self@;
        let np = self.installed_packages.len();
        let mut i: usize = 0;
        while i < np
            invariant
                s == self@,
                self.installed_packages.entry_facts(),
                np == self.installed_packages.key_seq().len(),
                i <= np,
                forall|j: int|
                    0 <= j < i ==> {
                        let k = #[trigger] self.installed_packages.key_seq()[j];
                        s.installed_packages[k].id == k && s.installed_packages[k].id
                            == package_id_view(
                            s.installed_packages[k].name,
                            s.installed_packages[k].version,
                        )
                    },
            decreases np - i,
        {
            let key = self.installed_packages.key_at(i);
            let p = self.installed_packages.value_at(i);
            let expected = make_package_id(p.name.as_str(), p.version.as_str());
            if !(str_eq(key.as_str(), p.id.as_str()) && str_eq(
                p.id.as_str(),
                expected.as_str(),
            )) {
                proof {
                    let k = self.installed_packages.key_seq()[i as int];
                    assert(s.installed_packages.contains_key(k));
                    assert(!wf_state(s));
                }
                return false;
            }
            i = i + 1;
        }
        let nb = self.installed_binaries.len();
        let mut i: usize = 0;
        while i < nb
            invariant
                s == self@,
                self.installed_binaries.entry_facts(),
                nb == self.installed_binaries.key_seq().len(),
                i <= nb,
                forall|j: int|
                    0 <= j < i ==> {
                        let k = #[trigger] self.installed_binaries.key_seq()[j];
                        s.installed_binaries[k].id == k && s.installed_binaries[k].id
                            == s.installed_binaries[k].package_id + "/"@
                            + s.installed_binaries[k].name && s.installed_packages.contains_key(
                            s.installed_binaries[k].package_id,
                        )
                    },
            decreases nb - i,
        {
            let key = self.installed_binaries.key_at(i);
            let b = self.installed_binaries.value_at(i);
            let expected = b.package_id.clone().concat("/").concat(b.name.as_str());
            if !(str_eq(key.as_str(), b.id.as_str()) && str_eq(
                b.id.as_str(),
                expected.as_str(),
            ) && self.installed_packages.contains_key(b.package_id.as_str())) {
                proof {
                    let k = self.installed_binaries.key_seq()[i as int];
                    assert(s.installed_binaries.contains_key(k));
                    assert(!wf_state(s));
                }
                return false;
            }
            i = i + 1;
        }
        let nc = self.current_binaries.len();
        let mut i: usize = 0;
        while i < nc
            invariant
                s == self@,
                self.current_binaries.entry_facts(),
                nc == self.current_binaries.key_seq().len(),
                i <= nc,
                forall|j: int|
                    0 <= j < i ==> {
                        let n = #[trigger] self.current_binaries.key_seq()[j];
                        s.current_binaries[n].name == n && s.current_binaries[n].id
                            == s.current_binaries[n].package_id + "/"@ + n
                            && s.installed_packages.contains_key(s.current_binaries[n].package_id)
                    },
            decreases nc - i,
        {
            let key = self.current_binaries.key_at(i);
            let b = self.current_binaries.value_at(i);
            let expected = b.package_id.clone().concat("/").concat(key.as_str());
            if !(str_eq(key.as_str(), b.name.as_str()) && str_eq(
                b.id.as_str(),
                expected.as_str(),
            ) && self.installed_packages.contains_key(b.package_id.as_str())) {
                proof {
                    let n = self.current_binaries.key_seq()[i as int];
                    assert(s.current_binaries.contains_key(n));
                    assert(!wf_state(s));
                }
                return false;
            }
            i = i + 1;
        }
        let ncp = self.current_packages.len();
        let mut i: usize = 0;
        while i < ncp
            invariant
                s == self@,
                self.current_packages.entry_facts(),
                ncp == self.current_packages.key_seq().len(),
                i <= ncp,
                forall|j: int|
                    0 <= j < i ==> {
                        let n = #[trigger] self.current_packages.key_seq()[j];
                        s.current_packages[n].name == n && s.current_packages[n].id
                            == package_id_view(n, s.current_packages[n].version)
                    },
            decreases ncp - i,
        {
            let key = self.current_packages.key_at(i);
            let p = self.current_packages.value_at(i);
            let expected = make_package_id(key.as_str(), p.version.as_str());
            if !(str_eq(key.as_str(), p.name.as_str()) && str_eq(
                p.id.as_str(),
                expected.as_str(),
            )) {
                proof {
                    let n = self.current_packages.key_seq()[i as int];
                    assert(s.current_packages.contains_key(n));
                    assert(!wf_state(s));
                }
                return false;
            }
            i = i + 1;
        }
        proof {
            assert forall|k: Seq<char>| #[trigger]
                s.installed_packages.contains_key(k) implies s.installed_packages[k].id == k
                && s.installed_packages[k].id == package_id_view(
                s.installed_packages[k].name,
                s.installed_packages[k].version,
            ) by {
                let j = choose|j: int|
                    0 <= j < self.installed_packages.key_seq().len()
                        && self.installed_packages.key_seq()[j] == k;
            }
            assert forall|k: Seq<char>| #[trigger]
                s.installed_binaries.contains_key(k) implies s.installed_binaries[k].id == k
                && s.installed_binaries[k].id == s.installed_binaries[k].package_id + "/"@
                + s.installed_binaries[k].name && s.installed_packages.contains_key(
                s.installed_binaries[k].package_id,
            ) by {
                let j = choose|j: int|
                    0 <= j < self.installed_binaries.key_seq().len()
                        && self.installed_binaries.key_seq()[j] == k;
            }
            assert forall|n: Seq<char>| #[trigger]
                s.current_binaries.contains_key(n) implies s.current_binaries[n].name == n
                && s.current_binaries[n].id == s.current_binaries[n].package_id + "/"@ + n
                && s.installed_packages.contains_key(s.current_binaries[n].package_id) by {
                let j = choose|j: int|
                    0 <= j < self.current_binaries.key_seq().len()
                        && self.current_binaries.key_seq()[j] == n;
            }
            assert forall|n: Seq<char>| #[trigger]
                s.current_packages.contains_key(n) implies s.current_packages[n].name == n
                && s.current_packages[n].id == package_id_view(
                n,
                s.current_packages[n].version,
            ) by {
                let j = choose|j: int|
                    0 <= j < self.current_packages.key_seq().len()
                        && self.current_packages.key_seq()[j] == n;
            }
        }
        true
    }

    /// Checks that every current entry is backed by a recorded binary
    /// of the same owner and name; true of every state the operations
    /// build, and the hypothesis of the current-binary closure law.
    pub fn check_current_backed(&self) -> (r: bool)
        ensures
            r == current_backed(self@),
    {
        let ghost s = self@;
        let nc = self.current_binaries.len();
        let mut i: usize = 0;
        while i < nc
            invariant
                s == self@,
                self.current_binaries.entry_facts(),
                nc == self.current_binaries.key_seq().len(),
                i <= nc,
                forall|j: int|
                    0 <= j < i ==> owned_binary(
                        s,
                        s.current_binaries[#[trigger] self.current_binaries.key_seq()[j]].package_id,
                        self.current_binaries.key_seq()[j],
                    ),
            decreases nc - i,
        {
            let key = self.current_binaries.key_at(i);
            let b = self.current_binaries.value_at(i);
            let backing_key = b.package_id.clone().concat("/").concat(key.as_str());
            let ok = match self.installed_binaries.get(backing_key.as_str()) {
                Option::Some(recorded) => str_eq(recorded.package_id.as_str(), b.package_id.as_str())
                    && str_eq(recorded.name.as_str(), key.as_str()),
                Option::None => false,
            };
            if !ok {
                proof {
                    let n = self.current_binaries.key_seq()[i as int];
                    assert(s.current_binaries.contains_key(n));
                    assert(!owned_binary(s, s.current_binaries[n].package_id, n));
                    assert(!current_backed(s));
                }
                return false;
            }
            i = i + 1;
        }
        proof {
            assert forall|n: Seq<char>| #[trigger]
                s.current_binaries.contains_key(n) implies owned_binary(
                s,
                s.current_binaries[n].package_id,
                n,
            ) by {
                let j = choose|j: int|
                    0 <= j < self.current_binaries.key_seq().len()
                        && self.current_binaries.key_seq()[j] == n;
            }
        }
        true
    }
}

impl Default for InstalledState {
    fn default() -> (r: Self)
        ensures
            r@ == empty_state(),
            wf_state(r@),
    {
        InstalledState::new()
    }
}

/// The state document as stored: a versioned payload and the
/// optimistic-concurrency token.
#[derive(Debug)]
pub struct GlobalInstalledState {
    pub state: VersionedGlobalState,
    pub updated_at: i64,
}

/// The payload behind its schema-version tag.  Only one version
/// exists; an unknown tag on disk is fatal before this type is built.
#[derive(Debug)]
pub enum VersionedGlobalState {
    V1(InstalledState),
}

/// A loaded state document: the payload plus the token it was read
/// with, or no token when the document did not exist yet.
pub struct StateContainer {
    pub updated_at: Option<i64>,
    pub current_state: InstalledState,
}

/// The container a read of the state file yields: the empty payload
/// without a token when the file does not exist, otherwise the stored
/// payload and its token.
pub fn container_from_document(doc: Option<GlobalInstalledState>) -> (r: StateContainer)
    ensures
        match doc {
            Option::None => r.updated_at is None && r.current_state@ == empty_state() && wf_state(
                r.current_state@,
            ),
            Option::Some(g) => r.updated_at == Option::Some(g.updated_at) && (g.state matches
                VersionedGlobalState::V1(st) && r.current_state == st),
        },
{
    match doc {
        Option::None => StateContainer {
            updated_at: Option::None,
            current_state: InstalledState::new(),
        },
        Option::Some(g) => {
            let GlobalInstalledState { state, updated_at } = g;
            let VersionedGlobalState::V1(current_state) = state;
            StateContainer { updated_at: Option::Some(updated_at), current_state }
        },
    }
}

/// Whether a write may commit: the token the container was loaded with
/// must still be the token on disk.
pub open spec fn commit_allowed(
    container_token: Option<i64>,
    disk_token: Option<i64>,
) -> bool {
    container_token == disk_token
}

fn opt_i64_eq(a: &Option<i64>, b: &Option<i64>) -> (r: bool)
    ensures
        r == (*a == *b),
{
    match (a, b) {
        (Option::Some(x), Option::Some(y)) => *x == *y,
        (Option::None, Option::None) => true,
        _ => false,
    }
}

/// The optimistic-concurrency gate of a state write: the container
/// commits, stamped with the present time, exactly when its token
/// matches what is on disk; any other writer's commit in between makes
/// it fail instead of overwriting.
pub fn prepare_commit(
    state_container: StateContainer,
    disk_updated_at: Option<i64>,
    now: i64,
) -> (r: Result<GlobalInstalledState, StateError>)
    ensures
        match r {
            Result::Ok(g) => commit_allowed(state_container.updated_at, disk_updated_at)
                && g.updated_at == now && (g.state matches VersionedGlobalState::V1(st) && st
                == state_container.current_state),
            Result::Err(e) => {
                &&& !commit_allowed(state_container.updated_at, disk_updated_at)
                &&& (e matches StateError::StateFileOutOfDate { expected, found } && expected
                    == state_container.updated_at && found == disk_updated_at)
            },
        },
{
    if !opt_i64_eq(&state_container.updated_at, &disk_updated_at) {
        return Result::Err(
            StateError::StateFileOutOfDate {
                expected: state_container.updated_at,
                found: disk_updated_at,
            },
        );
    }
    Result::Ok(
        GlobalInstalledState {
            updated_at: now,
            state: VersionedGlobalState::V1(state_container.current_state),
        },
    )
}

impl StateContainer {
    /// Describes every installed package.
    pub fn list_installed_packages(&self) -> (r: Vec<PackageDescription>)
        requires
            wf_state(self.current_state@),
        ensures
            r@.len() == self.current_state@.installed_packages.dom().len(),
            self.current_state.installed_packages.entry_facts(),
            forall|j: int|
                0 <= j < r@.len() ==> (#[trigger] r@[j]@).package_id
                    == self.current_state.installed_packages.key_seq()[j],
            forall|j: int|
                0 <= j < r@.len() ==> self.current_state@.installed_packages.contains_key(
                    #[trigger] r@[j]@.package_id,
                ) && r@[j]@ == description_of(
                    self.current_state@,
                    self.current_state@.installed_packages[r@[j]@.package_id],
                ),
    {
        let n = self.current_state.installed_packages.len();
        let mut out: Vec<PackageDescription> = Vec::new();
        let mut i: usize = 0;
        while i < n
            invariant
                wf_state(self.current_state@),
                self.current_state.installed_packages.entry_facts(),
                n == self.current_state.installed_packages.key_seq().len(),
                i <= n,
                out@.len() == i,
                forall|j: int|
                    0 <= j < i ==> (#[trigger] out@[j]@).package_id
                        == self.current_state.installed_packages.key_seq()[j],
                forall|j: int|
                    0 <= j < i ==> self.current_state@.installed_packages.contains_key(
                        #[trigger] out@[j]@.package_id,
                    ) && out@[j]@ == description_of(
                        self.current_state@,
                        self.current_state@.installed_packages[out@[j]@.package_id],
                    ),
            decreases n - i,
        {
            let p = self.current_state.installed_packages.value_at(i);
            let d = self.current_state.describe_package(p);
            proof {
                let ks = self.current_state.installed_packages.key_seq();
                assert(self.current_state@.installed_packages.contains_key(ks[i as int]));
                assert(p@.id == ks[i as int]);
            }
            out.push(d);
            i = i + 1;
        }
        out
    }

    /// Describes the package that is current for a name, when one is.
    pub fn describe_package(&self, name: &str) -> (r: Option<PackageDescription>)
        requires
            wf_state(self.current_state@),
        ensures
            match r {
                Option::Some(d) => self.current_state@.current_packages.contains_key(name@) && d@
                    == description_of(
                    self.current_state@,
                    self.current_state@.current_packages[name@],
                ),
                Option::None => !self.current_state@.current_packages.contains_key(name@),
            },
    {
        match self.current_state.current_packages.get(name) {
            Option::Some(p) => {
                let p2 = p.clone();
                Option::Some(self.current_state.describe_package(&p2))
            },
            Option::None => Option::None,
        }
    }

    /// Removes every described package.
    pub fn remove_packages(&mut self, packages_to_remove: Vec<PackageDescription>)
        requires
            wf_state(old(self).current_state@),
        ensures
            final(self).updated_at == old(self).updated_at,
            final(self).current_state@ == remove_all_spec(
                old(self).current_state@,
                packages_to_remove@.map_values(|d: PackageDescription| d@.package_id),
            ),
            wf_state(final(self).current_state@),
    {
        let ghost s0 = self.current_state@;
        let ghost ids = packages_to_remove@.map_values(|d: PackageDescription| d@.package_id);
        proof {
            assert(ids.skip(0) =~= ids);
        }
        let n = packages_to_remove.len();
        let mut i: usize = 0;
        while i < n
            invariant
                n == packages_to_remove@.len(),
                i <= n,
                ids == packages_to_remove@.map_values(|d: PackageDescription| d@.package_id),
                self.updated_at == old(self).updated_at,
                wf_state(self.current_state@),
                remove_all_spec(self.current_state@, ids.skip(i as int)) == remove_all_spec(
                    s0,
                    ids,
                ),
            decreases n - i,
        {
            let ghost before = self.current_state@;
            self.current_state.remove_package_by_id(packages_to_remove[i].package_id.as_str());
            proof {
                assert(ids.skip(i as int)[0] == ids[i as int]);
                assert(ids.skip(i as int).skip(1) =~= ids.skip(i as int + 1));
                assert(remove_all_spec(before, ids.skip(i as int)) == remove_all_spec(
                    remove_spec(before, ids[i as int]),
                    ids.skip(i as int + 1),
                ));
            }
            i = i + 1;
        }
        proof {
            assert(ids.skip(n as int) =~= Seq::<Seq<char>>::empty());
        }
    }
}

/// The rendering of an optional concurrency token.
pub open spec fn opt_token_view(o: Option<i64>) -> Seq<char> {
    match o {
        Option::Some(v) => "Some("@ + crate::strutil::dec_str_signed(v as int) + ")"@,
        Option::None => "None"@,
    }
}

fn token_text(o: &Option<i64>) -> (r: String)
    ensures
        r@ == opt_token_view(*o),
{
    match o {
        Option::Some(v) => {
            let s = String::from_str("Some(");
            let s = s.concat(crate::strutil::i64_to_string(*v).as_str());
            s.concat(")")
        },
        Option::None => String::from_str("None"),
    }
}

/// The one-line report of a state-store failure.
pub open spec fn state_error_text(e: StateError) -> Seq<char> {
    match e {
        StateError::UnableToObtainLock { path } => {
            "Unable to obtain lock. This means that either another processes is using it, or something bad has happened. Please look at the lock located at "@
                + path@ + " to resolve the issue."@
        },
        StateError::StateFileOutOfDate { expected, found } => {
            "Attempted to update the global state, but found that the statefile has been updated since this process state. Refusing to update the state file when it may be out-of-date. It was updated at "@
                + opt_token_view(found) + " where we expected the last update to be "@
                + opt_token_view(expected) + "."@
        },
        StateError::PackageNotInstalled { name, version } => {
            "Package "@ + name@ + "@"@ + version@ + " was not installed."@
        },
        StateError::NoSuchBinary { name, version } => {
            "There was no binary named "@ + name@ + "@"@ + version@ + " installed."@
        },
    }
}

impl StateError {
    /// Renders the failure for a user.
    pub fn message(&self) -> (r: String)
        ensures
            r@ == state_error_text(*self),
    {
        match self {
            StateError::UnableToObtainLock { path } => {
                let s = String::from_str(
                    "Unable to obtain lock. This means that either another processes is using it, or something bad has happened. Please look at the lock located at ",
                );
                let s = s.concat(path.as_str());
                s.concat(" to resolve the issue.")
            },
            StateError::StateFileOutOfDate { expected, found } => {
                let s = String::from_str(
                    "Attempted to update the global state, but found that the statefile has been updated since this process state. Refusing to update the state file when it may be out-of-date. It was updated at ",
                );
                let s = s.concat(token_text(found).as_str());
                let s = s.concat(" where we expected the last update to be ");
                let s = s.concat(token_text(expected).as_str());
                s.concat(".")
            },
            StateError::PackageNotInstalled { name, version } => {
                let s = String::from_str("Package ");
                let s = s.concat(name.as_str());
                let s = s.concat("@");
                let s = s.concat(version.as_str());
                s.concat(" was not installed.")
            },
            StateError::NoSuchBinary { name, version } => {
                let s = String::from_str("There was no binary named ");
                let s = s.concat(name.as_str());
                let s = s.concat("@");
                let s = s.concat(version.as_str());
                s.concat(" installed.")
            },
        }
    }
}

/// What a link republish will do: one link per current binary name,
/// and the removal of every present entry that no longer names one.
pub struct LinkPlan {
    pub to_create: Vec<String>,
    pub to_remove: Vec<String>,
}

/// Plans a link republish from the entries present in the link
/// directory and the current-binary table: every current name gets a
/// link, and every present entry that is not a current name goes.
pub fn plan_links(existing: &Vec<String>, state: &InstalledState) -> (r: LinkPlan)
    ensures
        r.to_create@.map_values(|s: String| s@) == state.current_binaries.key_seq(),
        r.to_create@.map_values(|s: String| s@).to_set() =~= state@.current_binaries.dom(),
        r.to_create@.map_values(|s: String| s@).no_duplicates(),
        r.to_remove@.map_values(|s: String| s@) == existing@.map_values(|s: String| s@).filter(
            |n: Seq<char>| !state@.current_binaries.contains_key(n),
        ),
{
    let ghost pred = |n: Seq<char>| !state@.current_binaries.contains_key(n);
    let _ = state.current_binaries.len();
    let to_create = state.current_binaries.keys();
    let n = existing.len();
    let mut to_remove: Vec<String> = Vec::new();
    let mut i: usize = 0;
    proof {
        reveal(Seq::filter);
        assert(existing@.subrange(0, 0).map_values(|s: String| s@) =~= Seq::<Seq<char>>::empty());
        assert(Seq::<Seq<char>>::empty().filter(pred) =~= Seq::<Seq<char>>::empty());
        assert(to_remove@.map_values(|s: String| s@) =~= Seq::<Seq<char>>::empty());
    }
    while i < n
        invariant
            n == existing@.len(),
            i <= n,
            pred == (|n: Seq<char>| !state@.current_binaries.contains_key(n)),
            to_remove@.map_values(|s: String| s@) == existing@.subrange(0, i as int).map_values(
                |s: String| s@,
            ).filter(pred),
        decreases n - i,
    {
        let ghost pfx = existing@.subrange(0, i as int).map_values(|s: String| s@);
        let ghost pfx2 = existing@.subrange(0, i as int + 1).map_values(|s: String| s@);
        proof {
            assert(pfx2.drop_last() =~= pfx);
            assert(pfx2.last() == existing@[i as int]@);
        }
        if !state.current_binaries.contains_key(existing[i].as_str()) {
            let ghost before = to_remove@.map_values(|s: String| s@);
            to_remove.push(existing[i].clone());
            proof {
                reveal(Seq::filter);
                assert(to_remove@.map_values(|s: String| s@) =~= before.push(
                    existing@[i as int]@,
                ));
                assert(pfx2.filter(pred) =~= pfx.filter(pred).push(existing@[i as int]@));
            }
        } else {
            proof {
                reveal(Seq::filter);
                assert(pfx2.filter(pred) =~= pfx.filter(pred));
            }
        }
        i = i + 1;
    }
    proof {
        assert(existing@.subrange(0, n as int) =~= existing@);
    }
    LinkPlan { to_create, to_remove }
}

} // verus!



