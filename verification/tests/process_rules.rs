use orpheus::process_rules::normalize_exe;


#[test]
fn normalizes_exe_names() {
    assert_eq!(normalize_exe("Game.EXE"), "game");
    assert_eq!(normalize_exe("\"game\""), "game");
    assert_eq!(normalize_exe(" game.exe "), "game");
}
