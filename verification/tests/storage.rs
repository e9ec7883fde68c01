use pbrq::handler::plugins::{delete, list, save, DeletePluginReq, SavePluginReq};
use pbrq::plugin::storage::{
    load_plugins, plugin_file_name, plugin_name_of_file, PluginFile, PLUGIN_PATH,
};
use pbrq::plugin::{keep_last_by_name, Plugin};

fn plugin(name: &str, disabled: bool, urls: &[&str]) -> Plugin {
    Plugin { name: name.to_string(), disabled, urls: urls.iter().map(|u| u.to_string()).collect() }
}

#[test]
fn plugin_directory() {
    assert_eq!(PLUGIN_PATH, "plugins");
}

#[test]
fn plugin_name_of_file_exact() {
    assert_eq!(plugin_name_of_file("a.json"), Some("a".to_string()));
    assert_eq!(plugin_name_of_file("my plugin.json"), Some("my plugin".to_string()));
    assert_eq!(plugin_name_of_file("a.b.json"), Some("a.b".to_string()));
    assert_eq!(plugin_name_of_file("a.json.json"), Some("a".to_string()));
    assert_eq!(plugin_name_of_file("..json"), Some(".".to_string()));
    assert_eq!(plugin_name_of_file(".json.json"), Some(String::new()));
    assert_eq!(plugin_name_of_file(".json"), None);
    assert_eq!(plugin_name_of_file("json"), None);
    assert_eq!(plugin_name_of_file("a.txt"), None);
    assert_eq!(plugin_name_of_file("a.JSON"), None);
    assert_eq!(plugin_name_of_file("a.json "), None);
    assert_eq!(plugin_name_of_file(""), None);
}

#[test]
fn plugin_name_of_file_is_what_std_makes_of_it() {
    for name in ["a.json", ".json", "..json", "a.json.json", "x", "a.txt", "a.b.json", ".json.json"] {
        let path = std::path::Path::new(name);
        let expected = if path.extension().unwrap_or_default().eq("json") {
            Some(name.trim_end_matches(".json").to_string())
        } else {
            None
        };
        assert_eq!(plugin_name_of_file(name), expected, "{:?}", name);
    }
}

#[test]
fn plugin_file_name_exact() {
    assert_eq!(plugin_file_name("a"), "a.json");
    assert_eq!(plugin_file_name(""), ".json");
    assert_eq!(plugin_name_of_file(&plugin_file_name("name")), Some("name".to_string()));
}

#[test]
fn load_plugins_picks_the_plugin_files() {
    let files = vec![
        PluginFile {
            file_name: "one.json".to_string(),
            content: Some(plugin("", false, &["ws://one/"])),
        },
        PluginFile { file_name: "broken.json".to_string(), content: None },
        PluginFile {
            file_name: "notes.txt".to_string(),
            content: Some(plugin("", false, &["ws://no/"])),
        },
        PluginFile {
            file_name: "two.json".to_string(),
            content: Some(plugin("ignored", true, &[])),
        },
    ];
    assert_eq!(
        load_plugins(files),
        vec![plugin("one", false, &["ws://one/"]), plugin("two", true, &[])]
    );
    assert_eq!(load_plugins(vec![]), vec![]);
}

#[test]
fn admin_lists_plugins_by_name() {
    let resp = list(vec![plugin("a", false, &["u"]), plugin("b", true, &[])]);
    assert_eq!(
        resp.plugins,
        vec![
            ("a".to_string(), plugin("a", false, &["u"])),
            ("b".to_string(), plugin("b", true, &[])),
        ]
    );
    assert!(list(vec![]).plugins.is_empty());
}

#[test]
fn admin_saves_a_plugin_under_the_name_of_the_request() {
    let (file_name, saved) =
        save(SavePluginReq { name: "mine".to_string(), plugin: plugin("other", true, &["u"]) });
    assert_eq!(file_name, "mine.json");
    assert_eq!(saved, plugin("mine", true, &["u"]));
}

#[test]
fn admin_deletes_a_plugin_file() {
    assert_eq!(delete(DeletePluginReq { name: "mine".to_string() }), "mine.json");
}

#[test]
fn plugins_with_one_name_are_listed_once() {
    let loaded = vec![
        plugin("a", false, &["first"]),
        plugin("b", true, &[]),
        plugin("a", true, &["second"]),
    ];
    assert_eq!(
        keep_last_by_name(&loaded),
        vec![plugin("b", true, &[]), plugin("a", true, &["second"])]
    );
    assert_eq!(
        list(loaded).plugins,
        vec![
            ("b".to_string(), plugin("b", true, &[])),
            ("a".to_string(), plugin("a", true, &["second"])),
        ]
    );
    assert_eq!(keep_last_by_name(&vec![]), vec![]);
}
