//! Plugins: their configuration, their connections, and the bytes they
//! exchange with the gateway.

use vstd::prelude::*;

pub mod conn;
pub mod pb_to_bytes;
pub mod storage;

verus! {

/// The configuration of one plugin as it is kept on disk: whether it is
/// switched off, and the WebSocket addresses under which it may be reached.
/// The name is taken from the name of the file.
#[derive(Clone, Debug, PartialEq, Eq)]
pub struct Plugin {
    pub name: String,
    pub disabled: bool,
    pub urls: Vec<String>,
}

/// What a `Plugin` holds, as mathematical values.
pub struct PluginView {
    pub name: Seq<char>,
    pub disabled: bool,
    pub urls: Seq<Seq<char>>,
}

impl DeepView for Plugin {
    type V = PluginView;

    open spec fn deep_view(&self) -> PluginView {
        PluginView { name: self.name@, disabled: self.disabled, urls: self.urls.deep_view() }
    }
}

impl View for Plugin {
    type V = PluginView;

    open spec fn view(&self) -> PluginView {
        self.deep_view()
    }
}

impl Default for Plugin {
    /// The plugin that a fresh installation starts with.
    fn default() -> (p: Self)
        ensures
            p@ == (PluginView {
                name: "default"@,
                disabled: false,
                urls: seq!["http://localhost:8081/ws/rq/"@],
            }),
    {
        let mut urls: Vec<String> = Vec::new();
        urls.push("http://localhost:8081/ws/rq/".to_string());
        let p = Plugin { name: "default".to_string(), disabled: false, urls };
        assert(p@.urls =~= seq!["http://localhost:8081/ws/rq/"@]);
        p
    }
}

/// Whether a later plugin than the one at `i` has the same name.
pub open spec fn superseded(plugins: Seq<PluginView>, i: int) -> bool {
    exists|j: int| i < j < plugins.len() && plugins[j].name == plugins[i].name
}

/// Of the first `k` plugins, those that no later plugin supersedes. This is
/// what a list of plugins holds when it is read as a map from names to
/// plugins that was filled in the order of the list.
pub open spec fn kept_plugins(plugins: Seq<PluginView>, k: int) -> Seq<PluginView>
    decreases k,
{
    if k <= 0 {
        Seq::empty()
    } else if superseded(plugins, k - 1) {
        kept_plugins(plugins, k - 1)
    } else {
        kept_plugins(plugins, k - 1).push(plugins[k - 1])
    }
}

/// Whether no name occurs twice among `plugins`.
pub open spec fn distinct_names(plugins: Seq<PluginView>) -> bool {
    forall|a: int, b: int|
        0 <= a < b < plugins.len() ==> (#[trigger] plugins[a]).name != (#[trigger] plugins[b]).name
}

/// Whether `x` is one of the first `k` plugins and no later plugin
/// supersedes it.
pub open spec fn kept_from(plugins: Seq<PluginView>, k: int, x: PluginView) -> bool {
    exists|i: int| 0 <= i < k && !superseded(plugins, i) && plugins[i] == x
}

/// Among the plugins that are kept no name occurs twice, and each of them
/// is one of the plugins that no later one supersedes.
pub proof fn lemma_kept_plugins_distinct(plugins: Seq<PluginView>, k: int)
    requires
        0 <= k <= plugins.len(),
    ensures
        distinct_names(kept_plugins(plugins, k)),
        forall|a: int|
            0 <= a < kept_plugins(plugins, k).len() ==> kept_from(
                plugins,
                k,
                #[trigger] kept_plugins(plugins, k)[a],
            ),
    decreases k,
{
    if k > 0 {
        lemma_kept_plugins_distinct(plugins, k - 1);
        let before = kept_plugins(plugins, k - 1);
        let now = kept_plugins(plugins, k);
        assert forall|a: int| 0 <= a < now.len() implies kept_from(plugins, k, #[trigger] now[a]) by {
            if a < before.len() {
                assert(now[a] == before[a]);
                assert(kept_from(plugins, k - 1, before[a]));
                let i = choose|i: int|
                    0 <= i < k - 1 && !superseded(plugins, i) && plugins[i] == before[a];
                assert(0 <= i < k && !superseded(plugins, i) && plugins[i] == now[a]);
            } else {
                assert(!superseded(plugins, k - 1) && plugins[k - 1] == now[a]);
            }
        }
        assert forall|a: int, b: int| 0 <= a < b < now.len() implies (#[trigger] now[a]).name != (
        #[trigger] now[b]).name by {
            if b < before.len() {
                assert(now[a] == before[a] && now[b] == before[b]);
            } else {
                assert(now[a] == before[a]);
                assert(kept_from(plugins, k - 1, before[a]));
                let i = choose|i: int|
                    0 <= i < k - 1 && !superseded(plugins, i) && plugins[i] == before[a];
                assert(now[b] == plugins[k - 1]);
                if now[a].name == now[b].name {
                    assert(i < k - 1 < plugins.len() && plugins[k - 1].name == plugins[i].name);
                    assert(superseded(plugins, i));
                }
            }
        }
    }
}

/// A copy of a list of addresses.
pub fn clone_urls(urls: &Vec<String>) -> (copy: Vec<String>)
    ensures
        copy.deep_view() == urls.deep_view(),
{
    let mut copy: Vec<String> = Vec::new();
    let mut i: usize = 0;
    while i < urls.len()
        invariant
            i <= urls@.len(),
            copy@.len() == i,
            copy.deep_view() == urls.deep_view().take(i as int),
        decreases urls@.len() - i,
    {
        let ghost before = copy.deep_view();
        let url = urls[i].clone();
        copy.push(url);
        assert forall|k: int| 0 <= k < i + 1 implies copy.deep_view()[k] == urls.deep_view()[k] by {
            if k < i {
                assert(copy.deep_view()[k] == before[k]);
            } else {
                assert(copy@[k] == url);
            }
        }
        assert(copy.deep_view() =~= urls.deep_view().take(i + 1));
        i = i + 1;
    }
    assert(urls.deep_view().take(i as int) =~= urls.deep_view());
    copy
}

/// A copy of a plugin.
pub fn clone_plugin(p: &Plugin) -> (copy: Plugin)
    ensures
        copy@ == p@,
{
    Plugin { name: p.name.clone(), disabled: p.disabled, urls: clone_urls(&p.urls) }
}

/// Reads a list of plugins as a map from names to plugins: of several
/// plugins with one name the last counts. What is left has every name once
/// and keeps the order of the list.
pub fn keep_last_by_name(plugins: &Vec<Plugin>) -> (kept: Vec<Plugin>)
    ensures
        kept.deep_view() == kept_plugins(plugins.deep_view(), plugins@.len() as int),
        distinct_names(kept.deep_view()),
{
    let ghost all = plugins.deep_view();
    let mut kept: Vec<Plugin> = Vec::new();
    let mut i: usize = 0;
    while i < plugins.len()
        invariant
            i <= plugins@.len(),
            all == plugins.deep_view(),
            kept.deep_view() == kept_plugins(all, i as int),
        decreases plugins@.len() - i,
    {
        let mut later: bool = false;
        let mut j: usize = i + 1;
        while j < plugins.len()
            invariant
                i < j <= plugins@.len(),
                all == plugins.deep_view(),
                later == (exists|m: int| i < m < j && all[m].name == all[i as int].name),
            decreases plugins@.len() - j,
        {
            let same = plugins[j].name == plugins[i].name;
            proof {
                assert(all[j as int].name == plugins@[j as int].name@);
                assert(all[i as int].name == plugins@[i as int].name@);
                if same {
                    assert(i < j < j + 1 && all[j as int].name == all[i as int].name);
                } else if exists|m: int| i < m < j + 1 && all[m].name == all[i as int].name {
                    let m = choose|m: int| i < m < j + 1 && all[m].name == all[i as int].name;
                    assert(i < m < j && all[m].name == all[i as int].name);
                }
            }
            if same {
                later = true;
            }
            j = j + 1;
        }
        if !later {
            let ghost before = kept.deep_view();
            kept.push(clone_plugin(&plugins[i]));
            assert(kept.deep_view() =~= before.push(all[i as int]));
        }
        i = i + 1;
    }
    proof {
        lemma_kept_plugins_distinct(all, plugins@.len() as int);
    }
    kept
}

} // verus!
