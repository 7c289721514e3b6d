//! The tool-lock document: which version of each tool is wanted, the
//! recorded tool versions, and the operations that keep the record.

use crate::config::model::{ApplicationConfig, ApplicationConfigView, Tokens};
use crate::string_map::StringMap;
use crate::strutil::{opt_clone, opt_view, str_eq};
use vstd::prelude::*;

verus! {

/// Which version of a tool the user wants on their path.
#[derive(Debug)]
pub enum WantedVersion {
    Latest,
    Specific(String),
}

/// The mathematical value of a wanted version.
#[verifier::ext_equal]
pub ghost enum WantedVersionView {
    Latest,
    Specific(Seq<char>),
}

impl View for WantedVersion {
    type V = WantedVersionView;

    open spec fn view(&self) -> WantedVersionView {
        match self {
            WantedVersion::Latest => WantedVersionView::Latest,
            WantedVersion::Specific(v) => WantedVersionView::Specific(v@),
        }
    }
}

/// A tool definition recorded in the lock: its name and configuration.
pub struct ToolDefinition {
    pub name: String,
    pub config: ApplicationConfig,
}

/// The mathematical value of a tool definition.
#[verifier::ext_equal]
pub ghost struct ToolDefinitionView {
    pub name: Seq<char>,
    pub config: ApplicationConfigView,
}

impl View for ToolDefinition {
    type V = ToolDefinitionView;

    open spec fn view(&self) -> ToolDefinitionView {
        ToolDefinitionView { name: self.name@, config: self.config@ }
    }
}

impl Clone for ToolDefinition {
    fn clone(&self) -> (r: Self)
        ensures
            r@ == self@,
    {
        ToolDefinition { name: self.name.clone(), config: self.config.clone() }
    }
}

/// Where the token for a download comes from.
#[derive(Debug, PartialEq, Eq, Structural, Clone, Copy)]
pub enum AuthTokenSource {
    Anonymous,
    GitHub,
}

/// The container format of a downloadable artifact.
#[derive(Debug, PartialEq, Eq, Structural, Clone, Copy)]
pub enum ArtifactType {
    Tgz,
    Raw,
    Zip,
}

/// One recorded tool version: its coordinates, when it was created,
/// where it downloads from, and where its executable sits.
#[derive(Debug)]
pub struct ToolVersion {
    pub name: String,
    pub version: String,
    pub created_at: i64,
    pub download_url: Option<String>,
    pub exec_path: String,
    pub art_type: ArtifactType,
    pub auth_token_source: AuthTokenSource,
}

/// The mathematical value of a recorded tool version.
#[verifier::ext_equal]
pub ghost struct ToolVersionView {
    pub name: Seq<char>,
    pub version: Seq<char>,
    pub created_at: int,
    pub download_url: Option<Seq<char>>,
    pub exec_path: Seq<char>,
    pub art_type: ArtifactType,
    pub auth_token_source: AuthTokenSource,
}

impl View for ToolVersion {
    type V = ToolVersionView;

    open spec fn view(&self) -> ToolVersionView {
        ToolVersionView {
            name: self.name@,
            version: self.version@,
            created_at: self.created_at as int,
            download_url: opt_view(self.download_url),
            exec_path: self.exec_path@,
            art_type: self.art_type,
            auth_token_source: self.auth_token_source,
        }
    }
}

impl Clone for ToolVersion {
    fn clone(&self) -> (r: Self)
        ensures
            r@ == self@,
    {
        ToolVersion {
            name: self.name.clone(),
            version: self.version.clone(),
            created_at: self.created_at,
            download_url: opt_clone(&self.download_url),
            exec_path: self.exec_path.clone(),
            art_type: self.art_type,
            auth_token_source: self.auth_token_source,
        }
    }
}

impl ToolVersion {
    /// Where the version's files are downloaded under a cache root.
    pub fn get_download_dir(&self, download_root: &str) -> (r: String)
        ensures
            r@ == download_root@ + "/"@ + self.name@ + "/"@ + self.version@,
    {
        let s = crate::strutil::join_path(download_root, self.name.as_str());
        crate::strutil::join_path(s.as_str(), self.version.as_str())
    }

    /// Where the version's executable sits under a cache root.
    pub fn exec_path(&self, download_root: &str) -> (r: String)
        ensures
            r@ == download_root@ + "/"@ + self.name@ + "/"@ + self.version@ + "/"@
                + self.exec_path@,
    {
        let dir = self.get_download_dir(download_root);
        crate::strutil::join_path(dir.as_str(), self.exec_path.as_str())
    }

    /// Whether the version has anything to download.
    pub fn is_downloadable(&self) -> (r: bool)
        ensures
            r == (self@.download_url is Some),
    {
        match &self.download_url {
            Option::Some(_) => true,
            Option::None => false,
        }
    }
}

/// Whether two recorded versions are the same release of the same tool.
pub open spec fn same_release(a: ToolVersionView, b: ToolVersionView) -> bool {
    a.name == b.name && a.version == b.version
}

/// The lock: wanted versions by tool name, API tokens, the recorded
/// definitions, and the recorded versions.
pub struct ToolLock {
    wanted: StringMap<WantedVersion>,
    pub tokens: Tokens,
    definations: Vec<ToolDefinition>,
    tools: Vec<ToolVersion>,
}

impl ToolLock {
    /// The recorded versions, abstractly.
    pub closed spec fn tools_view(&self) -> Seq<ToolVersionView> {
        self.tools@.map_values(|t: ToolVersion| t@)
    }

    /// The wanted table, abstractly.
    pub closed spec fn wanted_view(&self) -> Map<Seq<char>, WantedVersionView> {
        self.wanted@
    }

    /// The recorded definitions, abstractly.
    pub closed spec fn definations_view(&self) -> Seq<ToolDefinitionView> {
        self.definations@.map_values(|d: ToolDefinition| d@)
    }

    /// The stored token, abstractly.
    pub closed spec fn tokens_view(&self) -> Option<Seq<char>> {
        opt_view(self.tokens.github)
    }

    /// Whether a version value is one of the recorded ones.
    pub open spec fn recorded(&self, v: ToolVersionView) -> bool {
        exists|t: int| 0 <= t < self.tools_view().len() && #[trigger] self.tools_view()[t] == v
    }

    /// Records one version: any previously recorded entry of the same
    /// release leaves, the version is appended, and the tool's wanted
    /// entry is created as "latest" when it has none yet.
    pub fn add_new(&mut self, tool_version: ToolVersion)
        ensures
            final(self).tools_view() == old(self).tools_view().filter(
                |t: ToolVersionView| !same_release(t, tool_version@),
            ).push(tool_version@),
            final(self).wanted_view() == if old(self).wanted_view().contains_key(
                tool_version.name@,
            ) {
                old(self).wanted_view()
            } else {
                old(self).wanted_view().insert(tool_version.name@, WantedVersionView::Latest)
            },
            final(self).definations_view() == old(self).definations_view(),
            final(self).tokens_view() == old(self).tokens_view(),
    {
        let ghost pred = |t: ToolVersionView| !same_release(t, tool_version@);
        let mut tools: Vec<ToolVersion> = Vec::new();
        core::mem::swap(&mut tools, &mut self.tools);
        let n = tools.len();
        let mut out: Vec<ToolVersion> = Vec::new();
        let mut i: usize = 0;
        proof {
            reveal(Seq::filter);
            assert(tools@.subrange(0, 0).map_values(|t: ToolVersion| t@) =~= Seq::<
                ToolVersionView,
            >::empty());
            assert(out@.map_values(|t: ToolVersion| t@) =~= Seq::<ToolVersionView>::empty());
        }
        while i < n
            invariant
                n == tools@.len(),
                i <= n,
                pred == (|t: ToolVersionView| !same_release(t, tool_version@)),
                out@.map_values(|t: ToolVersion| t@) == tools@.subrange(0, i as int).map_values(
                    |t: ToolVersion| t@,
                ).filter(pred),
            decreases n - i,
        {
            let ghost pfx = tools@.subrange(0, i as int).map_values(|t: ToolVersion| t@);
            let ghost pfx2 = tools@.subrange(0, i as int + 1).map_values(|t: ToolVersion| t@);
            proof {
                reveal(Seq::filter);
                assert(pfx2.drop_last() =~= pfx);
                assert(pfx2.last() == tools@[i as int]@);
            }
            let keep = !(str_eq(tools[i].name.as_str(), tool_version.name.as_str()) && str_eq(
                tools[i].version.as_str(),
                tool_version.version.as_str(),
            ));
            if keep {
                let ghost before = out@.map_values(|t: ToolVersion| t@);
                let item = tools[i].clone();
                out.push(item);
                proof {
                    assert(out@.map_values(|t: ToolVersion| t@) =~= before.push(
                        tools@[i as int]@,
                    ));
                }
            }
            i = i + 1;
        }
        proof {
            assert(tools@.subrange(0, n as int) =~= tools@);
        }
        if !self.wanted.contains_key(tool_version.name.as_str()) {
            self.wanted.insert(tool_version.name.clone(), WantedVersion::Latest);
        }
        let ghost before_push = out@.map_values(|t: ToolVersion| t@);
        out.push(tool_version);
        proof {
            assert(out@.map_values(|t: ToolVersion| t@) =~= before_push.push(tool_version@));
        }
        self.tools = out;
    }

    /// Records every version of a list, in order.
    pub fn add_all(&mut self, tool_versions: Vec<ToolVersion>)
        ensures
            final(self).tools_view() == add_all_spec(
                old(self).tools_view(),
                tool_versions@.map_values(|t: ToolVersion| t@),
            ),
            final(self).definations_view() == old(self).definations_view(),
            final(self).tokens_view() == old(self).tokens_view(),
    {
        let ghost vs = tool_versions@.map_values(|t: ToolVersion| t@);
        proof {
            assert(vs.skip(0) =~= vs);
        }
        let n = tool_versions.len();
        let mut i: usize = 0;
        let mut rest = tool_versions;
        let ghost s0 = self.tools_view();
        while i < n
            invariant
                n == rest@.len(),
                i <= n,
                vs == rest@.map_values(|t: ToolVersion| t@),
                add_all_spec(self.tools_view(), vs.skip(i as int)) == add_all_spec(s0, vs),
                self.definations_view() == old(self).definations_view(),
                self.tokens_view() == old(self).tokens_view(),
            decreases n - i,
        {
            let ghost before = self.tools_view();
            let item = rest[i].clone();
            self.add_new(item);
            proof {
                assert(vs.skip(i as int)[0] == vs[i as int]);
                assert(vs.skip(i as int).skip(1) =~= vs.skip(i as int + 1));
                assert(add_all_spec(before, vs.skip(i as int)) == add_all_spec(
                    add_one_spec(before, vs[i as int]),
                    vs.skip(i as int + 1),
                ));
            }
            i = i + 1;
        }
        proof {
            assert(vs.skip(n as int) =~= Seq::<ToolVersionView>::empty());
        }
    }

    /// Forgets every version of a tool.
    pub fn delete_tool(&mut self, tool_name: &str)
        ensures
            final(self).tools_view() == old(self).tools_view().filter(
                |t: ToolVersionView| t.name != tool_name@,
            ),
            final(self).wanted_view() == old(self).wanted_view(),
            final(self).definations_view() == old(self).definations_view(),
            final(self).tokens_view() == old(self).tokens_view(),
    {
        let ghost pred = |t: ToolVersionView| t.name != tool_name@;
        let mut tools: Vec<ToolVersion> = Vec::new();
        core::mem::swap(&mut tools, &mut self.tools);
        let n = tools.len();
        let mut out: Vec<ToolVersion> = Vec::new();
        let mut i: usize = 0;
        proof {
            reveal(Seq::filter);
            assert(tools@.subrange(0, 0).map_values(|t: ToolVersion| t@) =~= Seq::<
                ToolVersionView,
            >::empty());
            assert(out@.map_values(|t: ToolVersion| t@) =~= Seq::<ToolVersionView>::empty());
        }
        while i < n
            invariant
                n == tools@.len(),
                i <= n,
                pred == (|t: ToolVersionView| t.name != tool_name@),
                out@.map_values(|t: ToolVersion| t@) == tools@.subrange(0, i as int).map_values(
                    |t: ToolVersion| t@,
                ).filter(pred),
            decreases n - i,
        {
            let ghost pfx = tools@.subrange(0, i as int).map_values(|t: ToolVersion| t@);
            let ghost pfx2 = tools@.subrange(0, i as int + 1).map_values(|t: ToolVersion| t@);
            proof {
                reveal(Seq::filter);
                assert(pfx2.drop_last() =~= pfx);
                assert(pfx2.last() == tools@[i as int]@);
            }
            if !str_eq(tools[i].name.as_str(), tool_name) {
                let ghost before = out@.map_values(|t: ToolVersion| t@);
                let item = tools[i].clone();
                out.push(item);
                proof {
                    assert(out@.map_values(|t: ToolVersion| t@) =~= before.push(
                        tools@[i as int]@,
                    ));
                }
            }
            i = i + 1;
        }
        proof {
            assert(tools@.subrange(0, n as int) =~= tools@);
        }
        self.tools = out;
    }

    /// Every recorded version of a tool, in record order.
    pub fn find_tool(&self, tool_name: &str) -> (r: Vec<ToolVersion>)
        ensures
            r@.map_values(|t: ToolVersion| t@) == self.tools_view().filter(
                |t: ToolVersionView| t.name == tool_name@,
            ),
    {
        let ghost pred = |t: ToolVersionView| t.name == tool_name@;
        let n = self.tools.len();
        let mut out: Vec<ToolVersion> = Vec::new();
        let mut i: usize = 0;
        proof {
            reveal(Seq::filter);
            assert(self.tools_view().subrange(0, 0) =~= Seq::<ToolVersionView>::empty());
            assert(out@.map_values(|t: ToolVersion| t@) =~= Seq::<ToolVersionView>::empty());
        }
        while i < n
            invariant
                n == self.tools@.len(),
                i <= n,
                pred == (|t: ToolVersionView| t.name == tool_name@),
                out@.map_values(|t: ToolVersion| t@) == self.tools_view().subrange(
                    0,
                    i as int,
                ).filter(pred),
            decreases n - i,
        {
            let ghost pfx = self.tools_view().subrange(0, i as int);
            let ghost pfx2 = self.tools_view().subrange(0, i as int + 1);
            proof {
                reveal(Seq::filter);
                assert(pfx2.drop_last() =~= pfx);
                assert(pfx2.last() == self.tools_view()[i as int]);
                assert(self.tools_view()[i as int] == self.tools@[i as int]@);
            }
            if str_eq(self.tools[i].name.as_str(), tool_name) {
                let ghost before = out@.map_values(|t: ToolVersion| t@);
                let item = self.tools[i].clone();
                out.push(item);
                proof {
                    assert(out@.map_values(|t: ToolVersion| t@) =~= before.push(
                        self.tools@[i as int]@,
                    ));
                }
            }
            i = i + 1;
        }
        proof {
            assert(self.tools_view().subrange(0, n as int) =~= self.tools_view());
        }
        out
    }

    /// The first recorded entry of one release, when there is one.
    pub fn find_version(&self, tool_name: &str, version: &str) -> (r: Option<ToolVersion>)
        ensures
            match r {
                Option::Some(t) => t@.name == tool_name@ && t@.version == version@ && exists|
                    j: int,
                |
                    0 <= j < self.tools_view().len() && #[trigger] self.tools_view()[j] == t@,
                Option::None => forall|j: int|
                    0 <= j < self.tools_view().len() ==> !(#[trigger] self.tools_view()[j].name
                        == tool_name@ && self.tools_view()[j].version == version@),
            },
    {
        let n = self.tools.len();
        let mut i: usize = 0;
        while i < n
            invariant
                n == self.tools@.len(),
                i <= n,
                forall|j: int|
                    0 <= j < i ==> !(#[trigger] self.tools_view()[j].name == tool_name@
                        && self.tools_view()[j].version == version@),
            decreases n - i,
        {
            proof {
                assert(self.tools_view()[i as int] == self.tools@[i as int]@);
            }
            if str_eq(self.tools[i].name.as_str(), tool_name) && str_eq(
                self.tools[i].version.as_str(),
                version,
            ) {
                return Option::Some(self.tools[i].clone());
            }
            i = i + 1;
        }
        Option::None
    }

    /// Every recorded version, in record order.
    pub fn get_all_tools(&self) -> (r: Vec<ToolVersion>)
        ensures
            r@.map_values(|t: ToolVersion| t@) == self.tools_view(),
    {
        let n = self.tools.len();
        let mut out: Vec<ToolVersion> = Vec::new();
        let mut i: usize = 0;
        while i < n
            invariant
                n == self.tools@.len(),
                i <= n,
                out@.len() == i,
                forall|j: int|
                    0 <= j < i ==> #[trigger] out@[j]@ == self.tools_view()[j],
            decreases n - i,
        {
            let item = self.tools[i].clone();
            out.push(item);
            proof {
                assert(self.tools_view()[i as int] == self.tools@[i as int]@);
            }
            i = i + 1;
        }
        proof {
            assert(out@.map_values(|t: ToolVersion| t@) =~= self.tools_view());
        }
        out
    }

    /// Records a tool definition.
    pub fn insert_defination(&mut self, name: String, config: ApplicationConfig)
        ensures
            final(self).definations_view() == old(self).definations_view().push(
                ToolDefinitionView { name: name@, config: config@ },
            ),
            final(self).tools_view() == old(self).tools_view(),
            final(self).wanted_view() == old(self).wanted_view(),
            final(self).tokens_view() == old(self).tokens_view(),
    {
        let ghost before = self.definations_view();
        self.definations.push(ToolDefinition { name, config });
        proof {
            assert(self.definations_view() =~= before.push(
                self.definations@.last()@,
            ));
        }
    }

    /// Every recorded tool definition, in record order.
    pub fn get_definations(&self) -> (r: Vec<ToolDefinition>)
        ensures
            r@.map_values(|d: ToolDefinition| d@) == self.definations_view(),
    {
        let n = self.definations.len();
        let mut out: Vec<ToolDefinition> = Vec::new();
        let mut i: usize = 0;
        while i < n
            invariant
                n == self.definations@.len(),
                i <= n,
                out@.len() == i,
                forall|j: int|
                    0 <= j < i ==> #[trigger] out@[j]@ == self.definations_view()[j],
            decreases n - i,
        {
            let item = self.definations[i].clone();
            out.push(item);
            proof {
                assert(self.definations_view()[i as int] == self.definations@[i as int]@);
            }
            i = i + 1;
        }
        proof {
            assert(out@.map_values(|d: ToolDefinition| d@) =~= self.definations_view());
        }
        out
    }

    /// Replaces the stored tokens.
    pub fn update_tokens(&mut self, tokens: &Tokens)
        ensures
            final(self).tokens_view() == opt_view(tokens.github),
            final(self).tools_view() == old(self).tools_view(),
            final(self).wanted_view() == old(self).wanted_view(),
            final(self).definations_view() == old(self).definations_view(),
    {
        self.tokens = tokens.clone();
    }

    /// The stored tokens.
    pub fn get_tokens(&self) -> (r: &Tokens)
        ensures
            opt_view(r.github) == self.tokens_view(),
    {
        &self.tokens
    }

    /// The version of a tool the user wants: with a specific wanted
    /// entry, that release; otherwise the newest recorded version of
    /// the tool, and nothing when none is recorded.
    pub fn get_wanted(&self, tool_name: &str) -> (r: Option<ToolVersion>)
        ensures
            match r {
                Option::Some(t) => t@.name == tool_name@ && exists|j: int|
                    0 <= j < self.tools_view().len() && #[trigger] self.tools_view()[j] == t@,
                Option::None => true,
            },
            (match self.wanted_view()[tool_name@] {
                WantedVersionView::Latest => true,
                WantedVersionView::Specific(_) => false,
            } || !self.wanted_view().contains_key(tool_name@)) ==> match r {
                Option::Some(t) => forall|j: int|
                    0 <= j < self.tools_view().len() && (#[trigger] self.tools_view()[j]).name
                        == tool_name@ ==> self.tools_view()[j].created_at <= t@.created_at,
                Option::None => forall|j: int|
                    0 <= j < self.tools_view().len() ==> (#[trigger] self.tools_view()[j]).name
                        != tool_name@,
            },
    {
        let specific: Option<String> = match self.wanted.get(tool_name) {
            Option::Some(WantedVersion::Specific(v)) => Option::Some(v.clone()),
            Option::Some(WantedVersion::Latest) => Option::None,
            Option::None => Option::None,
        };
        match specific {
            Option::Some(version) => self.find_version(tool_name, version.as_str()),
            Option::None => {
                let n = self.tools.len();
                let mut best: Option<ToolVersion> = Option::None;
                let mut i: usize = 0;
                while i < n
                    invariant
                        n == self.tools@.len(),
                        i <= n,
                        match best {
                            Option::Some(b) => b@.name == tool_name@ && (exists|j: int|
                                0 <= j < self.tools_view().len() && #[trigger] self.tools_view()[j]
                                    == b@) && (forall|j: int|
                                0 <= j < i && (#[trigger] self.tools_view()[j]).name == tool_name@
                                    ==> self.tools_view()[j].created_at <= b@.created_at),
                            Option::None => forall|j: int|
                                0 <= j < i ==> (#[trigger] self.tools_view()[j]).name
                                    != tool_name@,
                        },
                    decreases n - i,
                {
                    proof {
                        assert(self.tools_view()[i as int] == self.tools@[i as int]@);
                    }
                    if str_eq(self.tools[i].name.as_str(), tool_name) {
                        let replace = match &best {
                            Option::Some(b) => self.tools[i].created_at >= b.created_at,
                            Option::None => true,
                        };
                        if replace {
                            best = Option::Some(self.tools[i].clone());
                        }
                    }
                    i = i + 1;
                }
                best
            },
        }
    }

    /// The wanted version of every tool with a wanted entry that has
    /// one recorded, in table order.
    pub fn get_all_wanted(&self) -> (r: Vec<ToolVersion>)
        ensures
            forall|j: int| 0 <= j < r@.len() ==> self.recorded((#[trigger] r@[j])@),
    {
        let n = self.wanted.len();
        let mut out: Vec<ToolVersion> = Vec::new();
        let mut i: usize = 0;
        while i < n
            invariant
                n == self.wanted.key_seq().len(),
                i <= n,
                forall|j: int| 0 <= j < out@.len() ==> self.recorded((#[trigger] out@[j])@),
            decreases n - i,
        {
            let name = self.wanted.key_at(i).clone();
            match self.get_wanted(name.as_str()) {
                Option::Some(tool) => {
                    let ghost out0 = out@;
                    let ghost tv = tool@;
                    out.push(tool);
                    proof {
                        assert(self.recorded(tv));
                        assert forall|j: int|
                            0 <= j < out@.len() implies self.recorded((#[trigger] out@[j])@) by {
                            if j < out0.len() {
                                assert(out@[j] == out0[j]);
                                assert(self.recorded(out0[j]@));
                            } else {
                                assert(out@[j]@ == tv);
                            }
                        }
                    }
                },
                Option::None => {},
            }
            i = i + 1;
        }
        out
    }
}

impl Default for ToolLock {
    fn default() -> (r: Self)
        ensures
            r.tools_view() == Seq::<ToolVersionView>::empty(),
            r.wanted_view() == Map::<Seq<char>, WantedVersionView>::empty(),
            r.definations_view() == Seq::<ToolDefinitionView>::empty(),
            r.tokens_view() is None,
    {
        let r = ToolLock {
            tokens: Tokens::default(),
            tools: Vec::new(),
            wanted: StringMap::new(),
            definations: Vec::new(),
        };
        proof {
            assert(r.tools_view() =~= Seq::<ToolVersionView>::empty());
            assert(r.definations_view() =~= Seq::<ToolDefinitionView>::empty());
        }
        r
    }
}

/// Recording one version, abstractly.
pub open spec fn add_one_spec(tools: Seq<ToolVersionView>, v: ToolVersionView) -> Seq<
    ToolVersionView,
> {
    tools.filter(|t: ToolVersionView| !same_release(t, v)).push(v)
}

/// Recording a list of versions front to back, abstractly.
pub open spec fn add_all_spec(tools: Seq<ToolVersionView>, vs: Seq<ToolVersionView>) -> Seq<
    ToolVersionView,
>
    decreases vs.len(),
{
    if vs.len() == 0 {
        tools
    } else {
        add_all_spec(add_one_spec(tools, vs[0]), vs.skip(1))
    }
}

} // verus!
