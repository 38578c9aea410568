use canalhas_manager::event::WebhookEvent;
use canalhas_manager::maps::{delete_map_files, list_maps, map_name};
use std::path::Path;

fn names(list: &[&str]) -> Vec<String> {
    list.iter().map(|s| s.to_string()).collect()
}

#[test]
fn map_name_is_the_stem_of_a_bsp_file() {
    assert_eq!(map_name("de_dust2.bsp"), Some("de_dust2".to_string()));
    assert_eq!(map_name("a.b.bsp"), Some("a.b".to_string()));
    assert_eq!(map_name("de_dust2.txt"), None);
    assert_eq!(map_name("de_dust2.BSP"), None);
    assert_eq!(map_name("de_dust2.bsp.bak"), None);
    assert_eq!(map_name("bsp"), None);
    assert_eq!(map_name(".bsp"), None);
    assert_eq!(map_name(""), None);
}

#[test]
fn map_name_agrees_with_the_path_rules() {
    for name in ["de_dust2.bsp", "a.b.bsp", ".bsp", "x.bsp", "bsp", "a.bspx", "ç.bsp", "a..bsp", "...bsp"] {
        let path = Path::new(name);
        let want = match path.extension() {
            Some(ext) if ext == "bsp" => path.file_stem().map(|s| s.to_string_lossy().into_owned()),
            _ => None,
        };
        assert_eq!(map_name(name), want, "map of {:?}", name);
    }
}

#[test]
fn list_maps_keeps_the_maps_in_order() {
    let files = names(&["de_dust2.bsp", "de_dust2.res", "readme.txt", "cs_office.bsp", ".bsp"]);
    assert_eq!(list_maps(&files), vec!["de_dust2", "cs_office"]);
    assert!(list_maps(&Vec::new()).is_empty());
}

#[test]
fn delete_takes_every_file_that_begins_with_the_name() {
    let files = names(&["de_dust2.bsp", "de_dust2.res", "de_dust.bsp", "cs_office.bsp", "de_dust2_long.bsp"]);
    let deletion = delete_map_files(&files, "de_dust2".to_string());
    assert_eq!(deletion.files, vec!["de_dust2.bsp", "de_dust2.res", "de_dust2_long.bsp"]);
    assert_eq!(deletion.event, Some(WebhookEvent::MapDeleted("de_dust2".to_string())));
}

#[test]
fn delete_of_a_map_without_files_is_not_announced() {
    let files = names(&["de_dust2.bsp"]);
    let deletion = delete_map_files(&files, "cs_".to_string());
    assert!(deletion.files.is_empty());
    assert_eq!(deletion.event, None);
    let deletion = delete_map_files(&Vec::new(), "".to_string());
    assert!(deletion.files.is_empty());
    assert_eq!(deletion.event, None);
}
