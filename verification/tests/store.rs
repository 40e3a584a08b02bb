//! Reading and writing the rows of the record store.

use phaser_chat::store::{
    connection_url, deletion, game_id, game_not_found, new_game, next_version, read_game,
    read_instant, read_summaries, read_summary, read_version, read_versions, search_pattern,
    version_label, version_not_found, write_game, DbError, GameRecord, GameRow, GameSummary,
    GameVersion, SummaryRow, Timestamp, VersionRow, INITIAL_NOTES, MAX_CONNECTIONS,
    PATTERN_ESCAPE,
};
use phaser_chat::text::{push_decimal, push_signed_decimal};

fn summary_row(id: &str, created_at: &str, updated_at: &str) -> SummaryRow {
    SummaryRow {
        id: id.to_string(),
        title: "Dodger".to_string(),
        description: "Dodge the blocks".to_string(),
        created_at: created_at.to_string(),
        updated_at: updated_at.to_string(),
        version: 2,
    }
}

fn version_row(version: i64, created_at: &str) -> VersionRow {
    VersionRow {
        id: 10 + version,
        game_id: "game_1".to_string(),
        version,
        spec_json: "{}".to_string(),
        spec_defect: None,
        created_at: created_at.to_string(),
        notes: if version == 1 { Some(INITIAL_NOTES.to_string()) } else { None },
    }
}

#[test]
fn stored_dates_are_read_as_instants() {
    assert_eq!(
        read_instant("2024-01-02T03:04:05Z"),
        Ok(Timestamp { seconds: 1704164645, nanos: 0 })
    );
    assert_eq!(
        read_instant("2024-01-02T03:04:05+00:00"),
        Ok(Timestamp { seconds: 1704164645, nanos: 0 })
    );
    // the same instant, written in another zone
    assert_eq!(
        read_instant("2024-01-02T05:04:05.250+02:00"),
        Ok(Timestamp { seconds: 1704164645, nanos: 250_000_000 })
    );
    assert_eq!(read_instant("1970-01-01T00:00:00Z"), Ok(Timestamp { seconds: 0, nanos: 0 }));
    assert_eq!(
        read_instant("1969-12-31T23:59:59Z"),
        Ok(Timestamp { seconds: -1, nanos: 0 })
    );
}

#[test]
fn texts_that_are_no_dates_are_parse_errors() {
    let cases = [
        ("", "premature end of input"),
        ("2024-01-02", "premature end of input"),
        ("2024-01-02T03:04:05", "premature end of input"),
        ("yesterday", "premature end of input"),
        ("2024/01/02T03:04:05Z", "input contains invalid characters"),
        ("2024-13-02T03:04:05Z", "input is out of range"),
        ("2024-01-02T03:04:05Z tomorrow", "trailing input"),
    ];
    for (text, words) in cases {
        assert_eq!(read_instant(text), Err(DbError::DateTimeParse(words.to_string())), "{:?}", text);
    }
    assert_eq!(
        read_instant("then").unwrap_err().message(),
        "DateTime parse error: premature end of input"
    );
}

#[test]
fn game_rows_are_read() {
    let row = GameRow {
        id: "game_1".to_string(),
        title: "Dodger".to_string(),
        description: "Dodge the blocks".to_string(),
        spec_json: "{\"title\":\"Dodger\"}".to_string(),
        spec_defect: None,
        created_at: "2024-01-02T03:04:05+00:00".to_string(),
        updated_at: "2024-01-02T03:04:06.5+00:00".to_string(),
        version: 3,
    };
    assert_eq!(
        read_game(row.clone()),
        Ok(GameRecord {
            id: "game_1".to_string(),
            title: "Dodger".to_string(),
            description: "Dodge the blocks".to_string(),
            spec_json: "{\"title\":\"Dodger\"}".to_string(),
            created_at: Timestamp { seconds: 1704164645, nanos: 0 },
            updated_at: Timestamp { seconds: 1704164646, nanos: 500_000_000 },
            version: 3,
        })
    );
    let bad_creation = GameRow { created_at: "2024/01/02T03:04:05Z".to_string(), ..row.clone() };
    assert_eq!(
        read_game(bad_creation),
        Err(DbError::DateTimeParse("input contains invalid characters".to_string()))
    );
    let bad_update = GameRow { updated_at: "2024-01-02".to_string(), ..row.clone() };
    assert_eq!(
        read_game(bad_update),
        Err(DbError::DateTimeParse("premature end of input".to_string()))
    );
    // the date of creation is read first
    let bad_both = GameRow {
        created_at: "2024/01/02T03:04:05Z".to_string(),
        updated_at: "2024-01-02".to_string(),
        ..row.clone()
    };
    assert_eq!(
        read_game(bad_both),
        Err(DbError::DateTimeParse("input contains invalid characters".to_string()))
    );
    // a game that does not decode is reported before its dates are read
    let bad_game = GameRow {
        spec_defect: Some("missing field `scenes`".to_string()),
        created_at: "then".to_string(),
        ..row
    };
    assert_eq!(
        read_game(bad_game),
        Err(DbError::Serialization("missing field `scenes`".to_string()))
    );
}

#[test]
fn listings_are_read_in_order() {
    let rows = vec![
        summary_row("game_2", "2024-01-02T03:04:05Z", "2024-03-01T00:00:00Z"),
        summary_row("game_1", "2024-01-01T00:00:00Z", "2024-02-01T00:00:00Z"),
    ];
    let summaries = read_summaries(&rows).unwrap();
    assert_eq!(summaries.len(), 2);
    assert_eq!(
        summaries[0],
        GameSummary {
            id: "game_2".to_string(),
            title: "Dodger".to_string(),
            description: "Dodge the blocks".to_string(),
            created_at: Timestamp { seconds: 1704164645, nanos: 0 },
            updated_at: Timestamp { seconds: 1709251200, nanos: 0 },
            version: 2,
        }
    );
    assert_eq!(summaries[1].id, "game_1");
    assert_eq!(summaries[1].created_at, Timestamp { seconds: 1704067200, nanos: 0 });
    assert_eq!(summaries[1].updated_at, Timestamp { seconds: 1706745600, nanos: 0 });
    assert_eq!(read_summary(&rows[1]), Ok(summaries[1].clone()));
    assert_eq!(read_summaries(&Vec::new()), Ok(Vec::new()));
}

#[test]
fn one_bad_row_fails_the_listing() {
    let rows = vec![
        summary_row("game_2", "2024-01-02T03:04:05Z", "2024-03-01T00:00:00Z"),
        summary_row("game_1", "2024-01-01T00:00:00Z", "last week"),
    ];
    assert!(matches!(read_summaries(&rows), Err(DbError::DateTimeParse(_))));
    let rows = vec![version_row(2, "2024-01-02T03:04:05Z"), version_row(1, "")];
    assert!(matches!(read_versions(&rows), Err(DbError::DateTimeParse(_))));
}

#[test]
fn first_bad_row_decides_the_error() {
    let undecodable = |version: i64, created_at: &str| VersionRow {
        spec_defect: Some(format!("version {} is no game", version)),
        ..version_row(version, created_at)
    };
    // the undated row comes first
    let rows = vec![version_row(3, "never"), undecodable(2, "2024-01-02T03:04:05Z")];
    assert!(matches!(read_versions(&rows), Err(DbError::DateTimeParse(_))));
    // the undecodable row comes first
    let rows = vec![
        version_row(3, "2024-01-02T03:04:05Z"),
        undecodable(2, "2024-01-02T03:04:05Z"),
        version_row(1, "never"),
    ];
    assert_eq!(
        read_versions(&rows),
        Err(DbError::Serialization("version 2 is no game".to_string()))
    );
    assert_eq!(
        read_version(&undecodable(5, "never")),
        Err(DbError::Serialization("version 5 is no game".to_string()))
    );
}

#[test]
fn versions_are_read_in_order() {
    let rows = vec![version_row(2, "2024-01-02T03:04:05Z"), version_row(1, "2024-01-01T00:00:00Z")];
    let versions = read_versions(&rows).unwrap();
    assert_eq!(
        versions,
        vec![
            GameVersion {
                id: 12,
                game_id: "game_1".to_string(),
                version: 2,
                spec_json: "{}".to_string(),
                created_at: Timestamp { seconds: 1704164645, nanos: 0 },
                notes: None,
            },
            GameVersion {
                id: 11,
                game_id: "game_1".to_string(),
                version: 1,
                spec_json: "{}".to_string(),
                created_at: Timestamp { seconds: 1704067200, nanos: 0 },
                notes: Some("Initial version".to_string()),
            },
        ]
    );
    assert_eq!(read_version(&rows[0]), Ok(versions[0].clone()));
}

#[test]
fn new_game_is_its_first_version() {
    let now = Timestamp { seconds: 1704164645, nanos: 7 };
    let record = new_game(
        "game_1704164645000".to_string(),
        "Dodger".to_string(),
        "Dodge the blocks".to_string(),
        "{}".to_string(),
        now,
    );
    assert_eq!(record.version, 1);
    assert_eq!(record.created_at, now);
    assert_eq!(record.updated_at, now);
    assert_eq!(record.id, "game_1704164645000");
    assert_eq!(record.title, "Dodger");
    assert_eq!(record.description, "Dodge the blocks");
    assert_eq!(record.spec_json, "{}");
}

#[test]
fn update_makes_the_next_version() {
    let created = Timestamp { seconds: 1704164645, nanos: 0 };
    let now = Timestamp { seconds: 1704164700, nanos: 0 };
    let first = new_game(
        "game_1".to_string(),
        "Dodger".to_string(),
        "Dodge the blocks".to_string(),
        "{}".to_string(),
        created,
    );
    let second = next_version(
        &first,
        "Dodger II".to_string(),
        "Dodge more blocks".to_string(),
        "{\"v\":2}".to_string(),
        now,
    );
    assert_eq!(
        second,
        GameRecord {
            id: "game_1".to_string(),
            title: "Dodger II".to_string(),
            description: "Dodge more blocks".to_string(),
            spec_json: "{\"v\":2}".to_string(),
            created_at: created,
            updated_at: now,
            version: 2,
        }
    );
    let third = next_version(&second, "t".to_string(), "d".to_string(), "{}".to_string(), now);
    assert_eq!(third.version, 3);
}

#[test]
fn records_are_written_with_their_dates_as_text() {
    let record = GameRecord {
        id: "game_1".to_string(),
        title: "Dodger".to_string(),
        description: "Dodge the blocks".to_string(),
        spec_json: "{}".to_string(),
        created_at: Timestamp { seconds: 1704164645, nanos: 0 },
        updated_at: Timestamp { seconds: 1704164646, nanos: 500_000_000 },
        version: 4,
    };
    let row = write_game(&record).unwrap();
    assert_eq!(
        row,
        GameRow {
            id: "game_1".to_string(),
            title: "Dodger".to_string(),
            description: "Dodge the blocks".to_string(),
            spec_json: "{}".to_string(),
            spec_defect: None,
            created_at: "2024-01-02T03:04:05+00:00".to_string(),
            updated_at: "2024-01-02T03:04:06.500+00:00".to_string(),
            version: 4,
        }
    );
    // what was written reads back
    assert_eq!(read_game(row), Ok(record));
}

#[test]
fn instants_without_a_date_are_not_written() {
    let good = Timestamp { seconds: 0, nanos: 0 };
    let record = |created_at: Timestamp, updated_at: Timestamp| GameRecord {
        id: "game_1".to_string(),
        title: String::new(),
        description: String::new(),
        spec_json: String::new(),
        created_at,
        updated_at,
        version: 1,
    };
    assert!(write_game(&record(good, good)).is_some());
    assert_eq!(write_game(&record(Timestamp { seconds: 0, nanos: 2_000_000_000 }, good)), None);
    assert_eq!(write_game(&record(good, Timestamp { seconds: i64::MAX, nanos: 0 })), None);
}

#[test]
fn game_ids_are_made_of_the_milliseconds() {
    assert_eq!(game_id(0), "game_0");
    assert_eq!(game_id(7), "game_7");
    assert_eq!(game_id(10), "game_10");
    assert_eq!(game_id(1704164645123), "game_1704164645123");
    assert_eq!(game_id(u128::MAX), format!("game_{}", u128::MAX));
}

#[test]
fn numbers_are_written_in_decimal() {
    for value in [0u128, 9, 10, 99, 100, 101, 1234567890, u64::MAX as u128, u128::MAX] {
        let mut out = "n=".to_string();
        push_decimal(&mut out, value);
        assert_eq!(out, format!("n={}", value));
    }
    for value in [0i64, 1, -1, 42, -42, 1000, i64::MAX, i64::MIN] {
        let mut out = String::new();
        push_signed_decimal(&mut out, value);
        assert_eq!(out, format!("{}", value));
    }
}

#[test]
fn search_pattern_wraps_the_query() {
    assert_eq!(search_pattern("dodge"), "%dodge%");
    assert_eq!(search_pattern(""), "%%");
    assert_eq!(search_pattern("Dodger II"), "%Dodger II%");
    assert_eq!(search_pattern("h\u{e9}ros \u{1F680}"), "%h\u{e9}ros \u{1F680}%");
}

#[test]
fn search_pattern_takes_the_querys_signs_literally() {
    assert_eq!(search_pattern("%"), "%\\%%");
    assert_eq!(search_pattern("_"), "%\\_%");
    assert_eq!(search_pattern("\\"), "%\\\\%");
    assert_eq!(search_pattern("50%"), "%50\\%%");
    assert_eq!(search_pattern("a_b%c\\d"), "%a\\_b\\%c\\\\d%");
    assert_eq!(search_pattern("%%"), "%\\%\\%%");
    assert_eq!(PATTERN_ESCAPE, '\\');
}

#[test]
fn store_is_opened_under_its_scheme() {
    assert_eq!(connection_url("/data/games.db"), "sqlite:/data/games.db");
    assert_eq!(connection_url(""), "sqlite:");
    assert_eq!(MAX_CONNECTIONS, 5);
}

#[test]
fn versions_are_named_after_game_and_number() {
    assert_eq!(version_label("game_1", 3), "game_1 v3");
    assert_eq!(version_label("game_1", -3), "game_1 v-3");
    assert_eq!(version_label("", 0), " v0");
    assert_eq!(
        version_not_found("game_1", 12),
        DbError::NotFound("game_1 v12".to_string())
    );
    assert_eq!(game_not_found("game_9"), DbError::NotFound("game_9".to_string()));
}

#[test]
fn deletion_of_nothing_finds_no_game() {
    assert_eq!(deletion(1, "game_1"), Ok(()));
    assert_eq!(deletion(2, "game_1"), Ok(()));
    assert_eq!(deletion(0, "game_1"), Err(DbError::NotFound("game_1".to_string())));
}

#[test]
fn store_errors_are_reported_in_words() {
    assert_eq!(DbError::Database("locked".to_string()).message(), "Database error: locked");
    assert_eq!(
        DbError::Serialization("EOF".to_string()).message(),
        "Serialization error: EOF"
    );
    assert_eq!(
        DbError::DateTimeParse("too short".to_string()).message(),
        "DateTime parse error: too short"
    );
    assert_eq!(DbError::NotFound("game_1".to_string()).message(), "Game not found: game_1");
    assert_eq!(DbError::Io("denied".to_string()).message(), "IO error: denied");
}
