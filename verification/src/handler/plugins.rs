//! Listing, saving and deleting plugins.

use vstd::prelude::*;
use crate::plugin::storage::{json_suffix, plugin_file_name};
use crate::plugin::{clone_plugin, keep_last_by_name, kept_plugins, Plugin, PluginView};

verus! {

/// The plugins on disk, each under its name. The list stands for a map
/// from names to plugins.
#[derive(Debug, Default)]
pub struct ListPluginResp {
    pub plugins: Vec<(String, Plugin)>,
}

impl ListPluginResp {
    /// Whether the answer is well formed: no name stands twice.
    pub open spec fn wf(&self) -> bool {
        forall|a: int, b: int|
            0 <= a < b < self.plugins@.len() ==> (#[trigger] self.plugins@[a]).0@ != (
            #[trigger] self.plugins@[b]).0@
    }
}

/// Save this plugin under this name.
#[derive(Debug)]
pub struct SavePluginReq {
    pub name: String,
    pub plugin: Plugin,
}

/// The plugin was saved.
#[derive(Clone, Copy, Debug, Default)]
pub struct SavePluginResp {}

/// Delete the plugin of this name.
#[derive(Debug, Default)]
pub struct DeletePluginReq {
    pub name: String,
}

/// The plugin was deleted.
#[derive(Clone, Copy, Debug, Default)]
pub struct DeletePluginResp {}

/// The answer to a request for the list of plugins: the plugins that were
/// loaded, each under its name. Of several plugins with one name the last
/// counts, so that every name stands once; the order is that in which they
/// were loaded.
pub fn list(plugins: Vec<Plugin>) -> (resp: ListPluginResp)
    ensures
        resp.wf(),
        resp.plugins@.len() == kept_plugins(plugins.deep_view(), plugins@.len() as int).len(),
        forall|k: int|
            0 <= k < resp.plugins@.len() ==> (#[trigger] resp.plugins@[k]).0@ == kept_plugins(
                plugins.deep_view(),
                plugins@.len() as int,
            )[k].name && resp.plugins@[k].1@ == kept_plugins(
                plugins.deep_view(),
                plugins@.len() as int,
            )[k],
{
    let kept = keep_last_by_name(&plugins);
    let ghost views = kept.deep_view();
    let mut out: Vec<(String, Plugin)> = Vec::new();
    let mut i: usize = 0;
    while i < kept.len()
        invariant
            i <= kept@.len(),
            views == kept.deep_view(),
            out@.len() == i,
            forall|k: int| 0 <= k < i ==> (#[trigger] out@[k]).0@ == views[k].name && out@[k].1@
                == views[k],
        decreases kept@.len() - i,
    {
        let p = clone_plugin(&kept[i]);
        out.push((p.name.clone(), p));
        i = i + 1;
    }
    let resp = ListPluginResp { plugins: out };
    proof {
        assert forall|a: int, b: int| 0 <= a < b < resp.plugins@.len() implies (
        #[trigger] resp.plugins@[a]).0@ != (#[trigger] resp.plugins@[b]).0@ by {
            assert(views[a].name != views[b].name);
        }
    }
    resp
}

/// What a request to save a plugin asks to be written: the plugin, under
/// the name that the request gives, into the file of that name.
pub fn save(req: SavePluginReq) -> (r: (String, Plugin))
    ensures
        r.0@ == req.name@ + json_suffix(),
        r.1@ == (PluginView { name: req.name@, ..req.plugin@ }),
{
    let file_name = plugin_file_name(req.name.as_str());
    let plugin = Plugin { name: req.name, disabled: req.plugin.disabled, urls: req.plugin.urls };
    (file_name, plugin)
}

/// The name of the file that a request to delete a plugin asks to be
/// removed.
pub fn delete(req: DeletePluginReq) -> (file_name: String)
    ensures
        file_name@ == req.name@ + json_suffix(),
{
    plugin_file_name(req.name.as_str())
}

} // verus!
