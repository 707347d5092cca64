use rmgba::saves::{for_rom, key_for, load, remember, save, SaveStore, StoreUpdate};

fn written(update: Option<StoreUpdate>) -> String {
    match update {
        Some(StoreUpdate::WriteFile(text)) => text,
        Some(StoreUpdate::RemoveFile) => panic!("the file was removed"),
        None => panic!("nothing was remembered"),
    }
}

#[test]
fn roundtrip() {
    let mut map = SaveStore::new();
    map.insert("game.gba".to_string(), "/tmp/one.sav".to_string());
    map.insert("other.gba".to_string(), "/tmp/two.sav".to_string());
    // The text written for the store reads back as a store of the same size.
    let content = map.to_text();
    let parsed = load(&content);
    assert_eq!(parsed.len(), map.len());
}

#[test]
fn key_is_the_file_name() {
    assert_eq!(key_for("/home/user/roms/game.gba"), "game.gba");
    assert_eq!(key_for("game.gba"), "game.gba");
    assert_eq!(key_for("/run/user/1000/doc/abc/Pokemon Emerald.gba"), "Pokemon Emerald.gba");
    assert_eq!(key_for("roms/"), "roms");
    assert_eq!(key_for("roms/game.gba/."), "game.gba");
}

#[test]
fn key_is_empty_without_file_name() {
    assert_eq!(key_for("/"), "");
    assert_eq!(key_for(""), "");
    assert_eq!(key_for("roms/.."), "");
}

#[test]
fn text_has_one_line_per_entry() {
    let mut store = SaveStore::new();
    store.insert("a.gba".to_string(), "/saves/a.sav".to_string());
    store.insert("b.gba".to_string(), "/saves/b.sav".to_string());
    store.insert("a.gba".to_string(), "/saves/a2.sav".to_string());
    assert_eq!(store.len(), 2);
    assert_eq!(store.to_text(), "a.gba\t/saves/a2.sav\nb.gba\t/saves/b.sav\n");
}

#[test]
fn load_reads_lines_and_tabs() {
    let store = load("a.gba\t/s/a.sav\nno tab here\nb.gba\t/s/b.sav\r\n\nc.gba\tx\ty\n");
    assert_eq!(store.len(), 3);
    assert_eq!(store.get(&"a.gba".to_string()), Some("/s/a.sav".to_string()));
    assert_eq!(store.get(&"b.gba".to_string()), Some("/s/b.sav".to_string()));
    assert_eq!(store.get(&"c.gba".to_string()), Some("x\ty".to_string()));
    assert_eq!(store.get(&"no tab here".to_string()), None);
}

#[test]
fn load_later_line_wins() {
    let store = load("a.gba\tfirst\nb.gba\tother\na.gba\tsecond");
    assert_eq!(store.len(), 2);
    assert_eq!(store.get(&"a.gba".to_string()), Some("second".to_string()));
    assert_eq!(store.to_text(), "a.gba\tsecond\nb.gba\tother\n");
}

#[test]
fn load_keeps_carriage_return_of_unterminated_last_line() {
    let store = load("a.gba\tx\r");
    assert_eq!(store.get(&"a.gba".to_string()), Some("x\r".to_string()));
    let store = load("a.gba\tx\r\n");
    assert_eq!(store.get(&"a.gba".to_string()), Some("x".to_string()));
}

#[test]
fn load_empty_text_is_empty_store() {
    assert_eq!(load("").len(), 0);
    assert_eq!(load("\n\n").len(), 0);
}

#[test]
fn saving_an_empty_store_removes_the_file() {
    assert!(matches!(save(&SaveStore::new()), StoreUpdate::RemoveFile));
    let mut store = SaveStore::new();
    store.insert("a".to_string(), "b".to_string());
    match save(&store) {
        StoreUpdate::WriteFile(text) => assert_eq!(text, "a\tb\n"),
        StoreUpdate::RemoveFile => panic!("the file was removed"),
    }
}

#[test]
fn remember_writes_the_new_entry() {
    let text = written(remember("", "/roms/game.gba", "/saves/game.sav"));
    assert_eq!(text, "game.gba\t/saves/game.sav\n");
}

#[test]
fn remember_replaces_and_keeps_others() {
    let before = "game.gba\t/old.sav\nother.gba\t/other.sav\n";
    let text = written(remember(before, "/x/game.gba", "/new.sav"));
    assert_eq!(text, "game.gba\t/new.sav\nother.gba\t/other.sav\n");
    assert_eq!(for_rom(&text, "/y/other.gba"), Some("/other.sav".to_string()));
}

#[test]
fn remember_without_file_name_does_nothing() {
    assert!(remember("a\tb\n", "/", "/s.sav").is_none());
}

#[test]
fn for_rom_after_remember() {
    let text = written(remember("", "/run/user/1000/doc/1/game.gba", "/run/user/1000/doc/2/game.sav"));
    assert_eq!(
        for_rom(&text, "/somewhere/else/game.gba"),
        Some("/run/user/1000/doc/2/game.sav".to_string())
    );
    assert_eq!(for_rom(&text, "/somewhere/else/unknown.gba"), None);
    assert_eq!(for_rom(&text, "/"), None);
}
