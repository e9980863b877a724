//! The catalogue of effect plugins found on disk, and its queries.
use vstd::prelude::*;

verus! {

/// Kind of a plugin, as the plugin reports it.
#[derive(Debug, Clone, Copy, PartialEq, Eq, Structural)]
pub enum VstCategory {
    Effect,
    Synth,
    Analysis,
    Mastering,
    SpaciaIizer,
    RoomFx,
    SurroundFx,
    Restoration,
    OfflineProcess,
    Shell,
    Generator,
    Unknown,
}

/// What a scan learned of one plugin library.
#[derive(Debug, Clone)]
pub struct VstPluginInfo {
    pub path: String,
    pub name: String,
    pub vendor: String,
    pub category: VstCategory,
    pub unique_id: i32,
    pub version: i32,
    pub inputs: i32,
    pub outputs: i32,
    pub parameters: i32,
    pub is_synth: bool,
}

/// A path under a base directory, as `Path::join` builds it.
pub uninterp spec fn joined_path(base: Seq<char>, rel: Seq<char>) -> Seq<char>;

/// Relies on std::path::Path::join: the joined path depends on the two paths alone.
#[verifier::external_body]
fn join_path(base: &str, rel: &str) -> (r: String)
    ensures
        r@ == joined_path(base@, rel@),
{
    std::path::Path::new(base).join(rel).to_string_lossy().into_owned()
}

/// Relies on dirs::home_dir: the current user's home directory when one is
/// known. It comes from the environment, so nothing is promised of it.
#[verifier::external_body]
fn home_dir() -> Option<String> {
    match dirs::home_dir() {
        Some(p) => Some(p.to_string_lossy().into_owned()),
        None => None,
    }
}

/// The system-wide plugin directories, searched first.
pub open spec fn system_scan_paths() -> Seq<Seq<char>> {
    seq!["/usr/lib/vst"@, "/usr/local/lib/vst"@, "/usr/lib/lxvst"@, "/usr/local/lib/lxvst"@]
}

/// All directories searched, given the home directory if there is one.
pub open spec fn scan_paths_for(home: Option<Seq<char>>) -> Seq<Seq<char>> {
    match home {
        Some(h) => system_scan_paths() + seq![joined_path(h, ".vst"@), joined_path(h, ".local/lib/vst"@)],
        None => system_scan_paths(),
    }
}

/// The plugins of `s` of the given category, in catalogue order.
pub open spec fn of_category(s: Seq<VstPluginInfo>, category: VstCategory) -> Seq<VstPluginInfo> {
    s.filter(|p: VstPluginInfo| p.category == category)
}

/// Finds and lists plugin libraries.
pub struct VstScanner {
    plugins: Vec<VstPluginInfo>,
    scan_paths: Vec<String>,
}

impl VstScanner {
    pub closed spec fn spec_plugins(&self) -> Seq<VstPluginInfo> {
        self.plugins@
    }

    pub closed spec fn spec_scan_paths(&self) -> Seq<Seq<char>> {
        self.scan_paths@.map_values(|p: String| p@)
    }

    /// An empty catalogue that will search the system directories and, when
    /// the home directory is known, two directories under it.
    pub fn new() -> (r: Self)
        ensures
            r.spec_plugins() == Seq::<VstPluginInfo>::empty(),
            r.spec_scan_paths().take(4) == system_scan_paths(),
            r.spec_scan_paths().len() == 4 || r.spec_scan_paths().len() == 6,
    {
        let r = Self::with_home(home_dir());
        assert(r.spec_scan_paths().take(4) =~= system_scan_paths());
        r
    }

    /// An empty catalogue that will search the system directories and, for
    /// `Some(home)`, `home/.vst` and `home/.local/lib/vst`.
    pub fn with_home(home: Option<String>) -> (r: Self)
        ensures
            r.spec_plugins() == Seq::<VstPluginInfo>::empty(),
            r.spec_scan_paths() == scan_paths_for(
                match home {
                    Some(h) => Some(h@),
                    None => None,
                },
            ),
    {
        let mut scan_paths: Vec<String> = Vec::new();
        scan_paths.push("/usr/lib/vst".to_owned());
        scan_paths.push("/usr/local/lib/vst".to_owned());
        scan_paths.push("/usr/lib/lxvst".to_owned());
        scan_paths.push("/usr/local/lib/lxvst".to_owned());
        if let Some(h) = &home {
            scan_paths.push(join_path(h.as_str(), ".vst"));
            scan_paths.push(join_path(h.as_str(), ".local/lib/vst"));
        }
        let r = VstScanner { plugins: Vec::new(), scan_paths };
        assert(r.spec_scan_paths() =~= scan_paths_for(
            match home {
                Some(h) => Some(h@),
                None => None,
            },
        ));
        r
    }

    /// The directories to search, in order.
    pub fn get_scan_paths(&self) -> (r: &[String])
        ensures
            r@.map_values(|p: String| p@) == self.spec_scan_paths(),
    {
        self.scan_paths.as_slice()
    }

    /// Replaces the catalogue with the plugins that a search found.
    pub fn scan(&mut self, discovered: Vec<VstPluginInfo>)
        ensures
            final(self).spec_plugins() == discovered@,
            final(self).spec_scan_paths() == old(self).spec_scan_paths(),
    {
        self.plugins = discovered;
    }

    pub fn get_plugins(&self) -> (r: &[VstPluginInfo])
        ensures
            r@ == self.spec_plugins(),
    {
        self.plugins.as_slice()
    }

    /// The plugins of one category, in catalogue order.
    pub fn get_plugins_by_category(&self, category: VstCategory) -> (r: Vec<&VstPluginInfo>)
        ensures
            r@.map_values(|p: &VstPluginInfo| *p) == of_category(self.spec_plugins(), category),
    {
        let mut out: Vec<&VstPluginInfo> = Vec::new();
        let mut i: usize = 0;
        while i < self.plugins.len()
            invariant
                i <= self.plugins@.len(),
                out@.map_values(|p: &VstPluginInfo| *p) == of_category(self.plugins@.take(i as int), category),
            decreases self.plugins@.len() - i,
        {
            let p = &self.plugins[i];
            proof {
                reveal(Seq::filter);
                assert(self.plugins@.take(i as int + 1).drop_last() =~= self.plugins@.take(i as int));
            }
            if p.category == category {
                out.push(p);
            }
            i = i + 1;
            assert(out@.map_values(|p: &VstPluginInfo| *p) =~= of_category(self.plugins@.take(i as int), category));
        }
        assert(self.plugins@.take(i as int) =~= self.plugins@);
        out
    }

    /// The first plugin with the given name.
    pub fn find_plugin_by_name(&self, name: &str) -> (r: Option<&VstPluginInfo>)
        ensures
            match r {
                None => forall|k: int| 0 <= k < self.spec_plugins().len() ==> self.spec_plugins()[k].name@ != name@,
                Some(p) => exists|k: int|
                    0 <= k < self.spec_plugins().len() && *p == self.spec_plugins()[k]
                        && self.spec_plugins()[k].name@ == name@ && forall|j: int| 0 <= j < k ==> self.spec_plugins()[j].name@ != name@,
            },
    {
        let wanted = name.to_owned();
        let mut i: usize = 0;
        while i < self.plugins.len()
            invariant
                i <= self.plugins@.len(),
                wanted@ == name@,
                forall|j: int| 0 <= j < i ==> self.plugins@[j].name@ != name@,
            decreases self.plugins@.len() - i,
        {
            if self.plugins[i].name == wanted {
                return Some(&self.plugins[i]);
            }
            i = i + 1;
        }
        None
    }
}

} // verus!
