//! How plugins are named on disk: one file `<name>.json` per plugin in one
//! directory.

use vstd::prelude::*;
use crate::plugin::{Plugin, PluginView};
use crate::util::text::{chars_of, ends_with, has_suffix, head_of, push_str, string_of};

verus! {

/// The directory that holds the plugin files.
pub const PLUGIN_PATH: &'static str = "plugins";

/// The ending of a plugin file's name.
pub open spec fn json_suffix() -> Seq<char> {
    seq!['.', 'j', 's', 'o', 'n']
}

/// Whether a file of this name holds a plugin: its extension is `json`, that
/// is, the name ends in `.json` and has something in front of it.
pub open spec fn is_plugin_file(file_name: Seq<char>) -> bool {
    has_suffix(file_name, json_suffix()) && file_name.len() > json_suffix().len()
}

/// `s` without any `.json` at its end, however many there are.
pub open spec fn without_json_suffix(s: Seq<char>) -> Seq<char>
    decreases s.len(),
{
    if has_suffix(s, json_suffix()) {
        without_json_suffix(s.take(s.len() - json_suffix().len()))
    } else {
        s
    }
}

/// The name of the plugin that the file `file_name` holds, if it holds one.
pub open spec fn plugin_name(file_name: Seq<char>) -> Option<Seq<char>> {
    if is_plugin_file(file_name) {
        Some(without_json_suffix(file_name))
    } else {
        None
    }
}

/// The name of the plugin that the file `file_name` holds, if it holds one.
pub fn plugin_name_of_file(file_name: &str) -> (name: Option<String>)
    ensures
        match plugin_name(file_name@) {
            Some(n) => name is Some && name->Some_0@ == n,
            None => name is None,
        },
{
    let mut s = chars_of(file_name);
    let suffix = chars_of(".json");
    proof {
        reveal_strlit(".json");
        assert(suffix@ =~= json_suffix());
    }
    if !(ends_with(&s, &suffix) && s.len() > suffix.len()) {
        return None;
    }
    while ends_with(&s, &suffix)
        invariant
            suffix@ == json_suffix(),
            without_json_suffix(s@) == without_json_suffix(file_name@),
        decreases s@.len(),
    {
        s = head_of(&s, s.len() - suffix.len());
    }
    Some(string_of(&s))
}

/// The name of the file that holds the plugin `name`.
pub fn plugin_file_name(name: &str) -> (file_name: String)
    ensures
        file_name@ == name@ + json_suffix(),
{
    let mut s = chars_of(name);
    proof {
        reveal_strlit(".json");
        assert(".json"@ =~= json_suffix());
    }
    push_str(&mut s, ".json");
    string_of(&s)
}

/// One entry of the plugin directory: the name of the file, and the plugin
/// that its content describes where it describes one.
#[derive(Clone, Debug)]
pub struct PluginFile {
    pub file_name: String,
    pub content: Option<Plugin>,
}

/// The plugin that a directory entry gives, if any: the described plugin
/// under the name taken from the file.
pub open spec fn loaded_plugin(file_name: Seq<char>, content: Option<PluginView>) -> Option<
    PluginView,
> {
    match (plugin_name(file_name), content) {
        (Some(n), Some(p)) => Some(PluginView { name: n, ..p }),
        _ => None,
    }
}

/// The plugins that the entries of a directory give, in the order of the
/// entries.
pub open spec fn loaded_plugins(files: Seq<(Seq<char>, Option<PluginView>)>) -> Seq<PluginView>
    decreases files.len(),
{
    if files.len() == 0 {
        Seq::empty()
    } else {
        match loaded_plugin(files.last().0, files.last().1) {
            Some(p) => loaded_plugins(files.drop_last()).push(p),
            None => loaded_plugins(files.drop_last()),
        }
    }
}

/// What the directory entries `files` hold, as mathematical values.
pub open spec fn files_view(files: Seq<PluginFile>) -> Seq<(Seq<char>, Option<PluginView>)> {
    Seq::new(
        files.len(),
        |i: int|
            (
                files[i].file_name@,
                match files[i].content {
                    Some(p) => Some(p@),
                    None => None,
                },
            ),
    )
}

/// Picks the plugins out of the entries of the plugin directory. An entry
/// counts where its name has the extension `json` and its content describes
/// a plugin; the plugin is named after the file.
pub fn load_plugins(files: Vec<PluginFile>) -> (plugins: Vec<Plugin>)
    ensures
        plugins.deep_view() == loaded_plugins(files_view(files@)),
{
    let ghost all = files_view(files@);
    let mut plugins: Vec<Plugin> = Vec::new();
    let mut files = files;
    let mut back: Vec<PluginFile> = Vec::new();
    while files.len() > 0
        invariant
            files_view(files@) + files_view(back@).reverse() =~= all,
        decreases files@.len(),
    {
        let ghost f0 = files_view(files@);
        let ghost b0 = files_view(back@);
        let f = files.pop().unwrap();
        back.push(f);
        proof {
            assert(files_view(files@) =~= f0.drop_last());
            assert(files_view(back@) =~= b0.push(f0.last()));
            assert(files_view(back@).reverse() =~= seq![f0.last()] + b0.reverse());
        }
    }
    let ghost mut done: int = 0;
    proof {
        assert(all.take(0) =~= Seq::<(Seq<char>, Option<PluginView>)>::empty());
    }
    while back.len() > 0
        invariant
            0 <= done <= all.len(),
            files_view(back@).reverse() =~= all.skip(done),
            plugins.deep_view() == loaded_plugins(all.take(done)),
        decreases back@.len(),
    {
        let ghost b0 = files_view(back@);
        let ghost p0 = plugins.deep_view();
        let f = back.pop().unwrap();
        proof {
            assert(files_view(back@) =~= b0.drop_last());
            assert(b0.len() > 0);
            assert(b0.reverse().len() == b0.len());
            assert(all.skip(done).len() == b0.len());
            assert(b0.reverse()[0] == b0.last());
            assert(all.skip(done)[0] == all[done]);
            assert(b0.drop_last().reverse() =~= b0.reverse().skip(1));
            assert(all.skip(done).skip(1) =~= all.skip(done + 1));
            assert(all.take(done + 1).last() == all[done]);
            assert(all.take(done + 1).drop_last() =~= all.take(done));
        }
        let name = plugin_name_of_file(f.file_name.as_str());
        match (name, f.content) {
            (Some(n), Some(p)) => {
                plugins.push(Plugin { name: n, disabled: p.disabled, urls: p.urls });
                assert(plugins.deep_view() =~= p0.push(
                    loaded_plugin(all[done].0, all[done].1)->Some_0,
                ));
            },
            _ => {},
        }
        proof {
            done = done + 1;
        }
    }
    proof {
        assert(all.skip(done).len() == 0);
        assert(all.take(done) =~= all);
    }
    plugins
}

} // verus!
