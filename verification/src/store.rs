//! The record store's side of a game: what is kept of it, how a stored
//! row is read back, and what a write puts down. The store itself, with
//! its connection and its queries, belongs to the host.

use vstd::prelude::*;

use crate::text::{decimal, push_decimal, push_signed_decimal, signed_decimal};

verus! {

/// How many connections the store's pool may hold.
pub const MAX_CONNECTIONS: u32 = 5;

/// The scheme that opens the path of a store.
pub const STORE_SCHEME: &'static str = "sqlite:";

/// What opens the identifier of a game.
pub const GAME_ID_PREFIX: &'static str = "game_";

/// The note on the first version of a game.
pub const INITIAL_NOTES: &'static str = "Initial version";

/// The version of a game that was just created.
pub const FIRST_VERSION: i64 = 1;

/// An instant: the whole seconds since the start of 1970, UTC, and the
/// nanoseconds past them.
#[derive(Debug, Clone, Copy, PartialEq, Eq, Structural)]
pub struct Timestamp {
    pub seconds: i64,
    pub nanos: u32,
}

/// What `chrono` answers when it reads a text as an RFC 3339 date and
/// time (`DateTime::parse_from_rfc3339`): the instant that the text
/// denotes, as the seconds since the start of 1970, UTC, and the
/// nanoseconds past them; or, where it rejects the text, the words in
/// which it says why.
pub uninterp spec fn rfc3339_instant(text: Seq<char>) -> Result<(i64, u32), Seq<char>>;

/// The RFC 3339 text that `chrono` writes for an instant
/// (`DateTime::to_rfc3339`, on the value of `DateTime::from_timestamp`);
/// or nothing, where `chrono` has no date for these numbers.
pub uninterp spec fn rfc3339_text(seconds: i64, nanos: u32) -> Option<Seq<char>>;

/// Calls `chrono`'s `DateTime::parse_from_rfc3339` and hands out the
/// instant as numbers (`DateTime::timestamp`,
/// `DateTime::timestamp_subsec_nanos`), or the parser's error in its own
/// words (the `to_string` of `chrono`'s `ParseError`). The contract
/// claims only that the outcome is the one named [`rfc3339_instant`]: the
/// parser's answer, and the words of its error, depend on the text alone.
#[verifier::external_body]
fn parse_rfc3339(text: &str) -> (result: Result<Timestamp, String>)
    ensures
        match result {
            Ok(instant) => rfc3339_instant(text@) == Ok::<(i64, u32), Seq<char>>(
                (instant.seconds, instant.nanos),
            ),
            Err(words) => rfc3339_instant(text@) == Err::<(i64, u32), Seq<char>>(words@),
        },
{
    match chrono::DateTime::parse_from_rfc3339(text) {
        Ok(parsed) => Ok(
            Timestamp { seconds: parsed.timestamp(), nanos: parsed.timestamp_subsec_nanos() },
        ),
        Err(error) => Err(error.to_string()),
    }
}

/// Calls `chrono`'s `DateTime::from_timestamp` and, where that gives a
/// date, `DateTime::to_rfc3339` on it. The contract claims only that the
/// outcome is the one named [`rfc3339_text`]: it depends on the two
/// numbers alone.
#[verifier::external_body]
fn write_rfc3339(instant: Timestamp) -> (text: Option<String>)
    ensures
        match text {
            Some(written) => rfc3339_text(instant.seconds, instant.nanos) == Some(written@),
            None => rfc3339_text(instant.seconds, instant.nanos) is None,
        },
{
    match chrono::DateTime::from_timestamp(instant.seconds, instant.nanos) {
        Some(date) => Some(date.to_rfc3339()),
        None => None,
    }
}

/// Why the store gave no answer.
#[derive(Debug, Clone, PartialEq, Eq)]
pub enum DbError {
    /// The database failed; the words are the driver's.
    Database(String),
    /// A stored game could not be read, or a game could not be written, as
    /// JSON.
    Serialization(String),
    /// A stored date is no RFC 3339 date and time.
    DateTimeParse(String),
    /// No game, or no version of a game, goes by this name.
    NotFound(String),
    /// The file system failed.
    Io(String),
}

/// The mathematical content of a [`DbError`].
pub enum DbErrorView {
    Database(Seq<char>),
    Serialization(Seq<char>),
    DateTimeParse(Seq<char>),
    NotFound(Seq<char>),
    Io(Seq<char>),
}

impl View for DbError {
    type V = DbErrorView;

    open spec fn view(&self) -> DbErrorView {
        match self {
            DbError::Database(words) => DbErrorView::Database(words@),
            DbError::Serialization(words) => DbErrorView::Serialization(words@),
            DbError::DateTimeParse(words) => DbErrorView::DateTimeParse(words@),
            DbError::NotFound(name) => DbErrorView::NotFound(name@),
            DbError::Io(words) => DbErrorView::Io(words@),
        }
    }
}

impl DbError {
    /// The words in which an error is reported.
    pub open spec fn text(error: DbErrorView) -> Seq<char> {
        match error {
            DbErrorView::Database(words) => "Database error: "@ + words,
            DbErrorView::Serialization(words) => "Serialization error: "@ + words,
            DbErrorView::DateTimeParse(words) => "DateTime parse error: "@ + words,
            DbErrorView::NotFound(name) => "Game not found: "@ + name,
            DbErrorView::Io(words) => "IO error: "@ + words,
        }
    }

    /// The words in which this error is reported.
    pub fn message(&self) -> (words: String)
        ensures
            words@ == Self::text(self@),
    {
        let (opening, rest) = match self {
            DbError::Database(words) => ("Database error: ", words),
            DbError::Serialization(words) => ("Serialization error: ", words),
            DbError::DateTimeParse(words) => ("DateTime parse error: ", words),
            DbError::NotFound(name) => ("Game not found: ", name),
            DbError::Io(words) => ("IO error: ", words),
        };
        let mut words = String::from_str(opening);
        words.append(rest.as_str());
        words
    }
}

/// Stored game record with metadata. The game itself is kept as the JSON
/// text that the store holds.
#[derive(Debug, Clone, PartialEq, Eq)]
pub struct GameRecord {
    pub id: String,
    pub title: String,
    pub description: String,
    pub spec_json: String,
    pub created_at: Timestamp,
    pub updated_at: Timestamp,
    pub version: i64,
}

/// Game version record for tracking changes.
#[derive(Debug, Clone, PartialEq, Eq)]
pub struct GameVersion {
    pub id: i64,
    pub game_id: String,
    pub version: i64,
    pub spec_json: String,
    pub created_at: Timestamp,
    pub notes: Option<String>,
}

/// Summary of a game, without the game itself.
#[derive(Debug, Clone, PartialEq, Eq)]
pub struct GameSummary {
    pub id: String,
    pub title: String,
    pub description: String,
    pub created_at: Timestamp,
    pub updated_at: Timestamp,
    pub version: i64,
}

/// A row of the games table, as the store holds it: the dates are texts.
#[derive(Debug, Clone, PartialEq, Eq)]
pub struct GameRow {
    pub id: String,
    pub title: String,
    pub description: String,
    pub spec_json: String,
    /// Why the stored text is no game description, where the host found
    /// that it is none.
    pub spec_defect: Option<String>,
    pub created_at: String,
    pub updated_at: String,
    pub version: i64,
}

/// A row of the games table without the game itself.
#[derive(Debug, Clone, PartialEq, Eq)]
pub struct SummaryRow {
    pub id: String,
    pub title: String,
    pub description: String,
    pub created_at: String,
    pub updated_at: String,
    pub version: i64,
}

/// A row of the versions table.
#[derive(Debug, Clone, PartialEq, Eq)]
pub struct VersionRow {
    pub id: i64,
    pub game_id: String,
    pub version: i64,
    pub spec_json: String,
    /// Why the stored text is no game description, where the host found
    /// that it is none.
    pub spec_defect: Option<String>,
    pub created_at: String,
    pub notes: Option<String>,
}

/// The mathematical content of a [`GameRecord`].
pub struct RecordView {
    pub id: Seq<char>,
    pub title: Seq<char>,
    pub description: Seq<char>,
    pub spec_json: Seq<char>,
    pub created_at: Timestamp,
    pub updated_at: Timestamp,
    pub version: int,
}

/// The mathematical content of a [`GameSummary`].
pub struct SummaryView {
    pub id: Seq<char>,
    pub title: Seq<char>,
    pub description: Seq<char>,
    pub created_at: Timestamp,
    pub updated_at: Timestamp,
    pub version: int,
}

/// The mathematical content of a [`GameVersion`].
pub struct VersionView {
    pub id: int,
    pub game_id: Seq<char>,
    pub version: int,
    pub spec_json: Seq<char>,
    pub created_at: Timestamp,
    pub notes: Option<Seq<char>>,
}

/// The content of an optional text.
pub open spec fn optional_text(text: Option<String>) -> Option<Seq<char>> {
    match text {
        Some(text) => Some(text@),
        None => None,
    }
}

impl View for GameRecord {
    type V = RecordView;

    open spec fn view(&self) -> RecordView {
        RecordView {
            id: self.id@,
            title: self.title@,
            description: self.description@,
            spec_json: self.spec_json@,
            created_at: self.created_at,
            updated_at: self.updated_at,
            version: self.version as int,
        }
    }
}

impl View for GameSummary {
    type V = SummaryView;

    open spec fn view(&self) -> SummaryView {
        SummaryView {
            id: self.id@,
            title: self.title@,
            description: self.description@,
            created_at: self.created_at,
            updated_at: self.updated_at,
            version: self.version as int,
        }
    }
}

impl View for GameVersion {
    type V = VersionView;

    open spec fn view(&self) -> VersionView {
        VersionView {
            id: self.id as int,
            game_id: self.game_id@,
            version: self.version as int,
            spec_json: self.spec_json@,
            created_at: self.created_at,
            notes: optional_text(self.notes),
        }
    }
}

/// What reading a row comes to.
pub enum Reading<T> {
    /// The row reads as this.
    Read(T),
    /// The stored game is no game description, for this reason.
    Undecodable(Seq<char>),
    /// A stored date is no date, for this reason.
    Undated(Seq<char>),
}

/// Whether an error is the one that a failed reading is reported with:
/// a serialisation error with the defect's words for a game that does
/// not decode, a date error with the parser's words for a date that does
/// not read.
pub open spec fn reports<T>(error: DbErrorView, reading: Reading<T>) -> bool {
    match reading {
        Reading::Read(_) => false,
        Reading::Undecodable(why) => error == DbErrorView::Serialization(why),
        Reading::Undated(why) => error == DbErrorView::DateTimeParse(why),
    }
}

/// The instant that a stored date denotes, or why it denotes none.
pub open spec fn instant_of(text: Seq<char>) -> Result<Timestamp, Seq<char>> {
    match rfc3339_instant(text) {
        Ok((seconds, nanos)) => Ok(Timestamp { seconds, nanos }),
        Err(why) => Err(why),
    }
}

/// What a row of the games table reads as. The game is looked at first,
/// then the date of creation, then the date of the last update.
pub open spec fn record_of(row: GameRow) -> Reading<RecordView> {
    match row.spec_defect {
        Some(why) => Reading::Undecodable(why@),
        None => match instant_of(row.created_at@) {
            Err(why) => Reading::Undated(why),
            Ok(created_at) => match instant_of(row.updated_at@) {
                Err(why) => Reading::Undated(why),
                Ok(updated_at) => Reading::Read(
                    RecordView {
                        id: row.id@,
                        title: row.title@,
                        description: row.description@,
                        spec_json: row.spec_json@,
                        created_at,
                        updated_at,
                        version: row.version as int,
                    },
                ),
            },
        },
    }
}

/// What a row without a game reads as. The date of creation is looked at
/// first.
pub open spec fn summary_of(row: SummaryRow) -> Reading<SummaryView> {
    match instant_of(row.created_at@) {
        Err(why) => Reading::Undated(why),
        Ok(created_at) => match instant_of(row.updated_at@) {
            Err(why) => Reading::Undated(why),
            Ok(updated_at) => Reading::Read(
                SummaryView {
                    id: row.id@,
                    title: row.title@,
                    description: row.description@,
                    created_at,
                    updated_at,
                    version: row.version as int,
                },
            ),
        },
    }
}

/// What a row of the versions table reads as. The game is looked at
/// first, then the date.
pub open spec fn version_of(row: VersionRow) -> Reading<VersionView> {
    match row.spec_defect {
        Some(why) => Reading::Undecodable(why@),
        None => match instant_of(row.created_at@) {
            Err(why) => Reading::Undated(why),
            Ok(created_at) => Reading::Read(
                VersionView {
                    id: row.id as int,
                    game_id: row.game_id@,
                    version: row.version as int,
                    spec_json: row.spec_json@,
                    created_at,
                    notes: optional_text(row.notes),
                },
            ),
        },
    }
}

/// Reads a stored date.
pub fn read_instant(text: &str) -> (result: Result<Timestamp, DbError>)
    ensures
        match result {
            Ok(instant) => instant_of(text@) == Ok::<Timestamp, Seq<char>>(instant),
            Err(error) => instant_of(text@) is Err && error@ == DbErrorView::DateTimeParse(
                instant_of(text@)->Err_0,
            ),
        },
{
    match parse_rfc3339(text) {
        Ok(instant) => Ok(instant),
        Err(words) => Err(DbError::DateTimeParse(words)),
    }
}

/// Reads a row of the games table.
pub fn read_game(row: GameRow) -> (result: Result<GameRecord, DbError>)
    ensures
        match result {
            Ok(record) => record_of(row) == Reading::Read(record@),
            Err(error) => reports(error@, record_of(row)),
        },
{
    if let Some(why) = &row.spec_defect {
        return Err(DbError::Serialization(why.clone()));
    }
    let created_at = match read_instant(row.created_at.as_str()) {
        Ok(instant) => instant,
        Err(error) => {
            return Err(error);
        },
    };
    let updated_at = match read_instant(row.updated_at.as_str()) {
        Ok(instant) => instant,
        Err(error) => {
            return Err(error);
        },
    };
    Ok(
        GameRecord {
            id: row.id,
            title: row.title,
            description: row.description,
            spec_json: row.spec_json,
            created_at,
            updated_at,
            version: row.version,
        },
    )
}

/// Reads a row without a game. The date of creation is read first.
pub fn read_summary(row: &SummaryRow) -> (result: Result<GameSummary, DbError>)
    ensures
        match result {
            Ok(summary) => summary_of(*row) == Reading::Read(summary@),
            Err(error) => reports(error@, summary_of(*row)),
        },
{
    let created_at = match read_instant(row.created_at.as_str()) {
        Ok(instant) => instant,
        Err(error) => {
            return Err(error);
        },
    };
    let updated_at = match read_instant(row.updated_at.as_str()) {
        Ok(instant) => instant,
        Err(error) => {
            return Err(error);
        },
    };
    Ok(
        GameSummary {
            id: row.id.clone(),
            title: row.title.clone(),
            description: row.description.clone(),
            created_at,
            updated_at,
            version: row.version,
        },
    )
}

/// Reads a row of the versions table.
pub fn read_version(row: &VersionRow) -> (result: Result<GameVersion, DbError>)
    ensures
        match result {
            Ok(version) => version_of(*row) == Reading::Read(version@),
            Err(error) => reports(error@, version_of(*row)),
        },
{
    if let Some(why) = &row.spec_defect {
        return Err(DbError::Serialization(why.clone()));
    }
    let created_at = match read_instant(row.created_at.as_str()) {
        Ok(instant) => instant,
        Err(error) => {
            return Err(error);
        },
    };
    let notes = match &row.notes {
        Some(notes) => Some(notes.clone()),
        None => None,
    };
    Ok(
        GameVersion {
            id: row.id,
            game_id: row.game_id.clone(),
            version: row.version,
            spec_json: row.spec_json.clone(),
            created_at,
            notes,
        },
    )
}

/// Reads the rows of a listing, in their order. The first row that does
/// not read fails the whole listing, with its error.
pub fn read_summaries(rows: &Vec<SummaryRow>) -> (result: Result<Vec<GameSummary>, DbError>)
    ensures
        match result {
            Ok(summaries) => {
                &&& summaries@.len() == rows@.len()
                &&& forall|i: int|
                    0 <= i < rows@.len() ==> summary_of(rows@[i]) == Reading::Read(
                        (#[trigger] summaries@[i])@,
                    )
            },
            Err(error) => exists|first: int|
                {
                    &&& 0 <= first < rows@.len()
                    &&& forall|i: int| 0 <= i < first ==> summary_of(#[trigger] rows@[i]) is Read
                    &&& reports(error@, summary_of(#[trigger] rows@[first]))
                },
        },
{
    let mut summaries: Vec<GameSummary> = Vec::new();
    let mut i: usize = 0;
    while i < rows.len()
        invariant
            i <= rows.len(),
            summaries@.len() == i,
            forall|k: int|
                0 <= k < i ==> summary_of(rows@[k]) == Reading::Read((#[trigger] summaries@[k])@),
        decreases rows.len() - i,
    {
        match read_summary(&rows[i]) {
            Ok(summary) => {
                summaries.push(summary);
            },
            Err(error) => {
                proof {
                    assert forall|k: int| 0 <= k < i implies summary_of(
                        #[trigger] rows@[k],
                    ) is Read by {
                        assert(summary_of(rows@[k]) == Reading::Read(summaries@[k]@));
                    }
                    assert(reports(error@, summary_of(rows@[i as int])));
                }
                return Err(error);
            },
        }
        i += 1;
    }
    Ok(summaries)
}

/// Reads the versions of a game, in their order. The first row that does
/// not read fails the whole listing, with its error.
pub fn read_versions(rows: &Vec<VersionRow>) -> (result: Result<Vec<GameVersion>, DbError>)
    ensures
        match result {
            Ok(versions) => {
                &&& versions@.len() == rows@.len()
                &&& forall|i: int|
                    0 <= i < rows@.len() ==> version_of(rows@[i]) == Reading::Read(
                        (#[trigger] versions@[i])@,
                    )
            },
            Err(error) => exists|first: int|
                {
                    &&& 0 <= first < rows@.len()
                    &&& forall|i: int| 0 <= i < first ==> version_of(#[trigger] rows@[i]) is Read
                    &&& reports(error@, version_of(#[trigger] rows@[first]))
                },
        },
{
    let mut versions: Vec<GameVersion> = Vec::new();
    let mut i: usize = 0;
    while i < rows.len()
        invariant
            i <= rows.len(),
            versions@.len() == i,
            forall|k: int|
                0 <= k < i ==> version_of(rows@[k]) == Reading::Read((#[trigger] versions@[k])@),
        decreases rows.len() - i,
    {
        match read_version(&rows[i]) {
            Ok(version) => {
                versions.push(version);
            },
            Err(error) => {
                proof {
                    assert forall|k: int| 0 <= k < i implies version_of(
                        #[trigger] rows@[k],
                    ) is Read by {
                        assert(version_of(rows@[k]) == Reading::Read(versions@[k]@));
                    }
                    assert(reports(error@, version_of(rows@[i as int])));
                }
                return Err(error);
            },
        }
        i += 1;
    }
    Ok(versions)
}

/// The record of a game that is created now: its first version, created
/// and updated at the same instant.
pub fn new_game(
    id: String,
    title: String,
    description: String,
    spec_json: String,
    now: Timestamp,
) -> (record: GameRecord)
    ensures
        record@ == (RecordView {
            id: id@,
            title: title@,
            description: description@,
            spec_json: spec_json@,
            created_at: now,
            updated_at: now,
            version: FIRST_VERSION as int,
        }),
{
    GameRecord {
        id,
        title,
        description,
        spec_json,
        created_at: now,
        updated_at: now,
        version: FIRST_VERSION,
    }
}

/// The record of a game that is updated now: the next version, with the
/// new title, description and game; the identifier and the instant of
/// creation stay.
pub fn next_version(
    current: &GameRecord,
    title: String,
    description: String,
    spec_json: String,
    now: Timestamp,
) -> (record: GameRecord)
    requires
        current.version < i64::MAX,
    ensures
        record@ == (RecordView {
            id: current.id@,
            title: title@,
            description: description@,
            spec_json: spec_json@,
            created_at: current.created_at,
            updated_at: now,
            version: current.version + 1,
        }),
{
    GameRecord {
        id: current.id.clone(),
        title,
        description,
        spec_json,
        created_at: current.created_at,
        updated_at: now,
        version: current.version + 1,
    }
}

/// The texts of the two instants of a record, as they are stored; or
/// nothing, where one of them has no date.
pub open spec fn stamps_of(record: RecordView) -> Option<(Seq<char>, Seq<char>)> {
    match (
        rfc3339_text(record.created_at.seconds, record.created_at.nanos),
        rfc3339_text(record.updated_at.seconds, record.updated_at.nanos),
    ) {
        (Some(created_at), Some(updated_at)) => Some((created_at, updated_at)),
        _ => None,
    }
}

/// Writes a record as the row that stores it.
pub fn write_game(record: &GameRecord) -> (row: Option<GameRow>)
    ensures
        match row {
            Some(row) => {
                &&& stamps_of(record@) == Some((row.created_at@, row.updated_at@))
                &&& row.id@ == record.id@
                &&& row.title@ == record.title@
                &&& row.description@ == record.description@
                &&& row.spec_json@ == record.spec_json@
                &&& row.spec_defect is None
                &&& row.version == record.version
            },
            None => stamps_of(record@) is None,
        },
{
    let created_at = match write_rfc3339(record.created_at) {
        Some(text) => text,
        None => {
            return None;
        },
    };
    let updated_at = match write_rfc3339(record.updated_at) {
        Some(text) => text,
        None => {
            return None;
        },
    };
    Some(
        GameRow {
            id: record.id.clone(),
            title: record.title.clone(),
            description: record.description.clone(),
            spec_json: record.spec_json.clone(),
            spec_defect: None,
            created_at,
            updated_at,
            version: record.version,
        },
    )
}

/// The identifier of a game that is created at this many milliseconds
/// since the start of 1970.
pub fn game_id(millis: u128) -> (id: String)
    ensures
        id@ == GAME_ID_PREFIX@ + decimal(millis as nat),
{
    let mut id = String::from_str(GAME_ID_PREFIX);
    push_decimal(&mut id, millis);
    id
}

/// The address under which the store at this path is opened.
pub fn connection_url(path: &str) -> (url: String)
    ensures
        url@ == STORE_SCHEME@ + path@,
{
    let mut url = String::from_str(STORE_SCHEME);
    url.append(path);
    url
}

/// The sign that takes the special meaning from the sign behind it in a
/// search pattern. The store's queries name it as their escape sign.
pub const PATTERN_ESCAPE: char = '\\';

/// Whether a sign has a special meaning in a search pattern: `%` stands
/// for any text, `_` for any one sign, and the escape sign for itself.
pub open spec fn is_pattern_sign(sign: char) -> bool {
    sign == '%' || sign == '_' || sign == PATTERN_ESCAPE
}

/// A sign as it is written in a search pattern to stand for itself: a
/// sign with a special meaning is preceded by the escape sign.
pub open spec fn escaped_sign(sign: char) -> Seq<char> {
    if is_pattern_sign(sign) {
        seq![PATTERN_ESCAPE, sign]
    } else {
        seq![sign]
    }
}

/// The query with each `%`, `_` and `\` preceded by `\`: the pattern that
/// matches the query's own text and nothing else.
pub open spec fn escaped(query: Seq<char>) -> Seq<char>
    decreases query.len(),
{
    if query.len() == 0 {
        Seq::empty()
    } else {
        escaped(query.drop_last()) + escaped_sign(query.last())
    }
}

/// The pattern that finds a query anywhere in a text: any text, the
/// query itself, any text. The query's own signs stand for themselves, so
/// that a text is found only where it contains the query.
pub fn search_pattern(query: &str) -> (pattern: String)
    ensures
        pattern@ == "%"@ + escaped(query@) + "%"@,
{
    let mut pattern = String::from_str("%");
    let len = query.unicode_len();
    let mut i: usize = 0;
    while i < len
        invariant
            len == query@.len(),
            i <= len,
            pattern@ == "%"@ + escaped(query@.take(i as int)),
        decreases len - i,
    {
        let sign = query.get_char(i);
        proof {
            reveal_strlit("\\");
            assert("\\"@ =~= seq![PATTERN_ESCAPE]);
            assert(query@.take(i + 1).drop_last() =~= query@.take(i as int));
            assert(query@.take(i + 1).last() == sign);
            assert(query@.subrange(i as int, i + 1) =~= seq![sign]);
        }
        if sign == '%' || sign == '_' || sign == PATTERN_ESCAPE {
            pattern.append("\\");
        }
        pattern.append(query.substring_char(i, i + 1));
        proof {
            let before = "%"@ + escaped(query@.take(i as int));
            if is_pattern_sign(sign) {
                assert(before + seq![PATTERN_ESCAPE] + seq![sign] =~= before + seq![
                    PATTERN_ESCAPE,
                    sign,
                ]);
            }
        }
        i += 1;
    }
    proof {
        assert(query@.take(i as int) =~= query@);
    }
    pattern.append("%");
    pattern
}

/// A query without signs of special meaning is its own pattern.
pub proof fn plain_query_is_kept(query: Seq<char>)
    requires
        forall|i: int| 0 <= i < query.len() ==> !is_pattern_sign(#[trigger] query[i]),
    ensures
        escaped(query) == query,
    decreases query.len(),
{
    if query.len() > 0 {
        plain_query_is_kept(query.drop_last());
        assert(query.drop_last() + seq![query.last()] =~= query);
    }
}

/// The name of one version of a game.
pub fn version_label(game_id: &str, version: i64) -> (label: String)
    ensures
        label@ == game_id@ + " v"@ + signed_decimal(version as int),
{
    let mut label = String::from_str(game_id);
    label.append(" v");
    push_signed_decimal(&mut label, version);
    label
}

/// What a deletion came to: a deletion that removed no row found no game.
pub fn deletion(rows_affected: u64, id: &str) -> (result: Result<(), DbError>)
    ensures
        match result {
            Ok(_) => rows_affected != 0,
            Err(error) => rows_affected == 0 && error@ == DbErrorView::NotFound(id@),
        },
{
    if rows_affected == 0 {
        Err(DbError::NotFound(String::from_str(id)))
    } else {
        Ok(())
    }
}

/// The error of a game that the store does not hold.
pub fn game_not_found(id: &str) -> (error: DbError)
    ensures
        error@ == DbErrorView::NotFound(id@),
{
    DbError::NotFound(String::from_str(id))
}

/// The error of a version that the store does not hold.
pub fn version_not_found(game_id: &str, version: i64) -> (error: DbError)
    ensures
        error@ == DbErrorView::NotFound(game_id@ + " v"@ + signed_decimal(version as int)),
{
    DbError::NotFound(version_label(game_id, version))
}

} // verus!
