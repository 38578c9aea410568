use canalhas_manager::event::WebhookEvent;
use canalhas_manager::users::{add_admin, list_admins, remove_admin, update_admin, AdminEntry, HldsPaths};
use std::path::PathBuf;

fn rows(list: &[&str]) -> Vec<String> {
    list.iter().map(|s| s.to_string()).collect()
}

fn admin(name: Option<&str>, auth: &str, password: &str, access: &str, flags: &str) -> AdminEntry {
    AdminEntry {
        name: name.map(|n| n.to_string()),
        auth: auth.to_string(),
        password: password.to_string(),
        access: access.to_string(),
        flags: flags.to_string(),
    }
}

const FILE: &str = "; comment\n#[NOME: Alice]\n\"STEAM_0:1:1\" \"\" \"abcdefghijklmnopqrstu\" \"ce\"\n\"STEAM_0:1:2\" \"pw\" \"z\" \"a\"\n\n#[NOME: Carol]\n\"STEAM_0:1:3\" \"\" \"b\" \"ce\"\n; end\n";

#[test]
fn paths_hold_the_installation_directory() {
    let paths = HldsPaths { hlds_path: PathBuf::from("/srv/hlds") };
    assert_eq!(paths.hlds_path, PathBuf::from("/srv/hlds"));
}

#[test]
fn list_reads_names_and_entries() {
    let lines: Vec<String> = FILE.lines().map(|l| l.to_string()).collect();
    assert_eq!(
        list_admins(&lines),
        vec![
            admin(Some("Alice"), "STEAM_0:1:1", "", "abcdefghijklmnopqrstu", "ce"),
            admin(None, "STEAM_0:1:2", "pw", "z", "a"),
            admin(Some("Carol"), "STEAM_0:1:3", "", "b", "ce"),
        ]
    );
}

#[test]
fn list_passes_over_what_is_no_entry() {
    assert!(list_admins(&Vec::new()).is_empty());
    assert!(list_admins(&rows(&["", "; x", "STEAM \"a\" \"b\" \"c\"", "\"a\" \"b\" \"c\""])).is_empty());
    assert_eq!(
        list_admins(&rows(&["  \"a\" \"b\" \"c\" \"d\" \"e\"  "])),
        vec![admin(None, "a", "b", "c", "d")]
    );
}

#[test]
fn list_name_needs_its_closing_bracket_and_waits_for_an_entry() {
    let lines = rows(&[
        "#[NOME: Kept ]",
        "#[NOME: broken",
        "; between",
        "\"too\" \"short\"",
        "\"a\" \"b\" \"c\" \"d\"",
        "\"e\" \"f\" \"g\" \"h\"",
    ]);
    assert_eq!(
        list_admins(&lines),
        vec![admin(Some("Kept"), "a", "b", "c", "d"), admin(None, "e", "f", "g", "h")]
    );
    assert_eq!(
        list_admins(&rows(&["#[NOME:]", "\"\"a\"\" b \"c d\""])),
        vec![admin(Some(""), "a", "b", "c", "d")]
    );
}

#[test]
fn remove_leaves_out_the_entry_and_its_name_line() {
    let change = remove_admin(FILE, "STEAM_0:1:1");
    assert_eq!(
        change.text,
        "; comment\n\"STEAM_0:1:2\" \"pw\" \"z\" \"a\"\n\n#[NOME: Carol]\n\"STEAM_0:1:3\" \"\" \"b\" \"ce\"\n; end\n"
    );
    assert_eq!(
        change.event,
        WebhookEvent::Custom {
            title: "Administrador Removido".to_string(),
            message: "ID `STEAM_0:1:1` foi removido da lista de admins".to_string(),
        }
    );
}

#[test]
fn remove_of_an_unnamed_entry_keeps_the_line_before() {
    let change = remove_admin(FILE, "STEAM_0:1:2");
    assert_eq!(
        change.text,
        "; comment\n#[NOME: Alice]\n\"STEAM_0:1:1\" \"\" \"abcdefghijklmnopqrstu\" \"ce\"\n\n#[NOME: Carol]\n\"STEAM_0:1:3\" \"\" \"b\" \"ce\"\n; end\n"
    );
}

#[test]
fn remove_matches_every_entry_that_speaks_of_the_text() {
    let change = remove_admin(FILE, "STEAM_0:1:");
    assert_eq!(change.text, "; comment\n\n; end\n");
    let change = remove_admin(FILE, "nobody");
    assert_eq!(change.text, FILE);
    let change = remove_admin("", "x");
    assert_eq!(change.text, "\n");
    let change = remove_admin("a\r\nb", "x");
    assert_eq!(change.text, "a\nb\n");
}

#[test]
fn update_replaces_the_entry_and_leaves_out_the_next_line() {
    let updated = admin(Some("Alicia"), "STEAM_0:1:1", "secret", "abc", "a");
    let change = update_admin(FILE, &updated);
    assert_eq!(
        change.text,
        "; comment\n#[NOME: Alicia]\n\"STEAM_0:1:1\" \"secret\" \"abc\" \"a\"\n\n#[NOME: Carol]\n\"STEAM_0:1:3\" \"\" \"b\" \"ce\"\n; end\n"
    );
    assert_eq!(
        change.event,
        WebhookEvent::Custom {
            title: "Administrador Atualizado".to_string(),
            message: "ID `STEAM_0:1:1` teve seus dados atualizados".to_string(),
        }
    );
}

#[test]
fn update_without_a_name_drops_the_old_name_line() {
    let updated = admin(None, "STEAM_0:1:3", "", "z", "ce");
    let change = update_admin(FILE, &updated);
    assert_eq!(
        change.text,
        "; comment\n#[NOME: Alice]\n\"STEAM_0:1:1\" \"\" \"abcdefghijklmnopqrstu\" \"ce\"\n\"STEAM_0:1:2\" \"pw\" \"z\" \"a\"\n\n\"STEAM_0:1:3\" \"\" \"z\" \"ce\"\n"
    );
    let change = update_admin(FILE, &admin(None, "nobody", "", "", ""));
    assert_eq!(change.text, FILE);
}

#[test]
fn add_writes_the_name_line_and_the_entry() {
    let change = add_admin(&admin(Some("Dave"), "STEAM_0:1:4", "pw", "abc", "ce"));
    assert_eq!(change.text, "#[NOME: Dave]\n\"STEAM_0:1:4\" \"pw\" \"abc\" \"ce\"\n");
    assert_eq!(
        change.event,
        WebhookEvent::Custom {
            title: "Novo Administrador Adicionado".to_string(),
            message: "ID `STEAM_0:1:4` foi adicionado como admin".to_string(),
        }
    );
    let change = add_admin(&admin(None, "x", "", "", ""));
    assert_eq!(change.text, "\"x\" \"\" \"\" \"\"\n");
}

#[test]
fn what_is_added_is_read_back() {
    let first = admin(Some("Dave"), "STEAM_0:1:4", "pw", "abc", "ce");
    let second = admin(None, "10.0.0.1", "x", "z", "de");
    let text = format!("{}{}", add_admin(&first).text, add_admin(&second).text);
    let lines: Vec<String> = text.lines().map(|l| l.to_string()).collect();
    assert_eq!(list_admins(&lines), vec![first, second]);
}
