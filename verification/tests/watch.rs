use cmd_timer::watch::{is_watched, watched, ProcessEntry};

fn entry(pid: u32, name: &str) -> ProcessEntry {
    ProcessEntry::new(pid, name.to_string(), 0)
}

fn names(entries: &[ProcessEntry]) -> Vec<&str> {
    entries.iter().map(|e| e.name.as_str()).collect()
}

#[test]
fn client_processes_are_listed_and_others_are_not() {
    let snapshot =
        vec![entry(10, "RiotClientServices"), entry(20, "LeagueClient"), entry(30, "notepad")];
    let listed = watched(&snapshot);
    assert_eq!(names(&listed), vec!["RiotClientServices", "LeagueClient"]);
    assert_eq!(listed[0].pid, 10);
    assert_eq!(listed[1].pid, 20);
}

#[test]
fn keywords_match_in_any_case() {
    for name in ["riot", "RIOT", "Riot", "rIoT", "league", "LEAGUE", "LeAgUe", "League of Legends"]
    {
        assert!(is_watched(name), "{}", name);
    }
}

#[test]
fn keywords_match_anywhere_in_the_name() {
    for name in ["riot.exe", "xriot", "a-riot-b", "preLEAGUEpost", "rriot", "leleague", "riotleague"]
    {
        assert!(is_watched(name), "{}", name);
    }
}

#[test]
fn names_without_a_keyword_are_not_listed() {
    for name in [
        "", "r", "rio", "iot", "ri ot", "r.i.o.t", "toir", "leagu", "eague", "lea gue", "notepad",
        "explorer.exe", "systemd", "rlieoatgue",
    ] {
        assert!(!is_watched(name), "{}", name);
    }
}

#[test]
fn only_ascii_capitals_are_lowered() {
    assert!(!is_watched("R\u{130}OT"));
    assert!(!is_watched("\u{ff32}\u{ff29}\u{ff2f}\u{ff34}"));
    assert!(!is_watched("r\u{131}ot"));
    assert!(is_watched("\u{e9}RIOT\u{e9}"));
    assert!(is_watched("\u{4e2d}League\u{6587}"));
}

#[test]
fn characters_next_to_the_capitals_are_not_lowered() {
    assert!(!is_watched("@IOT"));
    assert!(!is_watched("[EAGUE"));
    assert!(!is_watched("R)OT"));
}

#[test]
fn listing_agrees_with_the_standard_text_search() {
    let samples = [
        "RiotClientServices", "LeagueClient", "notepad", "", "RIOT", "riOt", "leaGUE", "Rio",
        "tRIOt", "lEAGUe", "le ague", "R\u{130}OT", "\u{e9}League", "riot\u{0}", "RIORIOT",
        "leaguleague", "LEAGURIOLEAGU", "\u{1F600}riot", "ri\u{1F600}ot",
    ];
    for name in samples {
        let low = name.to_ascii_lowercase();
        let expected = low.contains("riot") || low.contains("league");
        assert_eq!(is_watched(name), expected, "{:?}", name);
    }
}

#[test]
fn listing_keeps_the_order_of_the_snapshot() {
    let snapshot = vec![
        entry(5, "zz"),
        entry(4, "League"),
        entry(3, "aa"),
        entry(2, "riot"),
        entry(1, "LEAGUE"),
    ];
    let listed = watched(&snapshot);
    let pids: Vec<u32> = listed.iter().map(|e| e.pid).collect();
    assert_eq!(pids, vec![4, 2, 1]);
}

#[test]
fn equal_entries_are_each_listed() {
    let snapshot = vec![entry(7, "riot"), entry(7, "riot"), entry(8, "riot")];
    assert_eq!(watched(&snapshot).len(), 3);
}

#[test]
fn empty_snapshot_lists_nothing() {
    assert!(watched(&Vec::new()).is_empty());
}

#[test]
fn snapshot_without_clients_lists_nothing() {
    let snapshot = vec![entry(1, "init"), entry(2, "bash")];
    assert!(watched(&snapshot).is_empty());
}

#[test]
fn listed_entries_are_unchanged() {
    let snapshot = vec![ProcessEntry::new(42, "RiotClientUx".to_string(), 5 * 1024 * 1024)];
    let listed = watched(&snapshot);
    assert_eq!(listed, snapshot);
    assert_eq!(listed[0], ProcessEntry { pid: 42, name: "RiotClientUx".to_string(), memory_kib: 5120 });
}

#[test]
fn resident_memory_is_counted_in_whole_kibibytes() {
    let cases: [(u64, u64); 8] = [
        (0, 0),
        (1, 0),
        (1023, 0),
        (1024, 1),
        (1025, 1),
        (2048, 2),
        (1_048_576, 1024),
        (u64::MAX, 18_014_398_509_481_983),
    ];
    for (bytes, kib) in cases {
        let made = ProcessEntry::new(1, String::new(), bytes);
        assert_eq!(made.memory_kib, kib);
        assert_eq!(made.pid, 1);
        assert_eq!(made.name, "");
    }
}
