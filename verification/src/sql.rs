//! Configuration of the database plugin: connection options, migrations,
//! and the stores that the plugin is built from.

use crate::strmap::StringMap;
use crate::text::{
    decimal, i32_to_string, lemma_starts_with_first_part, lower_text, occurs, split_at_first,
    starts_with, str_contains, str_split_once,
};
use std::str::FromStr;
use vstd::prelude::*;
use vstd::string::StringExecFns;

verus! {

/// The connection string of a database that lives in memory only.
pub const IN_MEMORY_URL: &'static str = "sqlite::memory:";

/// What every connection string of a database file begins with.
pub const SQLITE_SCHEME: &'static str = "sqlite:";

/// Failures of the database plugin that do not come from the database.
#[derive(Debug, Clone, PartialEq, Eq)]
pub enum Error {
    /// No database is loaded under the name.
    DatabaseNotLoaded(String),
    /// A column holds a type that cannot be handed back.
    UnsupportedDatatype(String),
}

impl Error {
    /// The failure in words.
    pub open spec fn spec_message(self) -> Seq<char> {
        match self {
            Error::DatabaseNotLoaded(name) => "database "@ + name@ + " not loaded"@,
            Error::UnsupportedDatatype(name) => "unsupported datatype: "@ + name@,
        }
    }

    /// The failure in words.
    pub fn message(&self) -> (out: String)
        ensures
            out@ == self.spec_message(),
    {
        match self {
            Error::DatabaseNotLoaded(name) => {
                let mut out = "database ".to_owned();
                out.append(name.as_str());
                out.append(" not loaded");
                out
            },
            Error::UnsupportedDatatype(name) => {
                let mut out = "unsupported datatype: ".to_owned();
                out.append(name.as_str());
                out
            },
        }
    }
}

/// How SQLite keeps its rollback journal.
#[derive(Debug, Clone, Copy, PartialEq, Eq, Structural)]
pub enum JournalMode {
    Delete,
    Truncate,
    Persist,
    Memory,
    Wal,
    Off,
}

/// How eagerly SQLite syncs to disk.
#[derive(Debug, Clone, Copy, PartialEq, Eq, Structural)]
pub enum Synchronous {
    Off,
    Normal,
    Full,
    Extra,
}

/// How SQLite holds its file locks.
#[derive(Debug, Clone, Copy, PartialEq, Eq, Structural)]
pub enum LockingMode {
    Normal,
    Exclusive,
}

/// The journal mode of this name in small letters, if there is one.
pub open spec fn journal_mode_named(name: Seq<char>) -> Option<JournalMode> {
    if name == "delete"@ {
        Some(JournalMode::Delete)
    } else if name == "truncate"@ {
        Some(JournalMode::Truncate)
    } else if name == "persist"@ {
        Some(JournalMode::Persist)
    } else if name == "memory"@ {
        Some(JournalMode::Memory)
    } else if name == "wal"@ {
        Some(JournalMode::Wal)
    } else if name == "off"@ {
        Some(JournalMode::Off)
    } else {
        None
    }
}

/// The synchronous setting of this name in small letters, if there is one.
pub open spec fn synchronous_named(name: Seq<char>) -> Option<Synchronous> {
    if name == "off"@ {
        Some(Synchronous::Off)
    } else if name == "normal"@ {
        Some(Synchronous::Normal)
    } else if name == "full"@ {
        Some(Synchronous::Full)
    } else if name == "extra"@ {
        Some(Synchronous::Extra)
    } else {
        None
    }
}

/// The locking mode of this name in small letters, if there is one.
pub open spec fn locking_mode_named(name: Seq<char>) -> Option<LockingMode> {
    if name == "normal"@ {
        Some(LockingMode::Normal)
    } else if name == "exclusive"@ {
        Some(LockingMode::Exclusive)
    } else {
        None
    }
}

/// `SqliteJournalMode::from_str`: knows the six modes by their names, in
/// any case of letters.
#[verifier::external_body]
fn parse_journal_mode(name: &str) -> (out: Option<JournalMode>)
    ensures
        out == journal_mode_named(lower_text(name@)),
{
    match sqlx::sqlite::SqliteJournalMode::from_str(name) {
        Ok(sqlx::sqlite::SqliteJournalMode::Delete) => Some(JournalMode::Delete),
        Ok(sqlx::sqlite::SqliteJournalMode::Truncate) => Some(JournalMode::Truncate),
        Ok(sqlx::sqlite::SqliteJournalMode::Persist) => Some(JournalMode::Persist),
        Ok(sqlx::sqlite::SqliteJournalMode::Memory) => Some(JournalMode::Memory),
        Ok(sqlx::sqlite::SqliteJournalMode::Wal) => Some(JournalMode::Wal),
        Ok(sqlx::sqlite::SqliteJournalMode::Off) => Some(JournalMode::Off),
        Err(_) => None,
    }
}

/// `SqliteSynchronous::from_str`: knows the four settings by their names,
/// in any case of letters.
#[verifier::external_body]
fn parse_synchronous(name: &str) -> (out: Option<Synchronous>)
    ensures
        out == synchronous_named(lower_text(name@)),
{
    match sqlx::sqlite::SqliteSynchronous::from_str(name) {
        Ok(sqlx::sqlite::SqliteSynchronous::Off) => Some(Synchronous::Off),
        Ok(sqlx::sqlite::SqliteSynchronous::Normal) => Some(Synchronous::Normal),
        Ok(sqlx::sqlite::SqliteSynchronous::Full) => Some(Synchronous::Full),
        Ok(sqlx::sqlite::SqliteSynchronous::Extra) => Some(Synchronous::Extra),
        Err(_) => None,
    }
}

/// `SqliteLockingMode::from_str`: knows the two modes by their names, in
/// any case of letters.
#[verifier::external_body]
fn parse_locking_mode(name: &str) -> (out: Option<LockingMode>)
    ensures
        out == locking_mode_named(lower_text(name@)),
{
    match sqlx::sqlite::SqliteLockingMode::from_str(name) {
        Ok(sqlx::sqlite::SqliteLockingMode::Normal) => Some(LockingMode::Normal),
        Ok(sqlx::sqlite::SqliteLockingMode::Exclusive) => Some(LockingMode::Exclusive),
        Err(_) => None,
    }
}

/// `PathBuf::push` on the path `base`, read back as text: what comes of it
/// follows the rules of the platform.
#[verifier::external_body]
fn join_path(base: &str, rest: &str) -> (out: String) {
    let mut path = std::path::PathBuf::from(base);
    path.push(rest);
    path.to_string_lossy().into_owned()
}

/// Settings of an SQLite database, the encrypted kind included.
#[derive(Debug, Clone, PartialEq, Eq)]
pub struct SqliteConfig {
    /// The key of the database; empty for a database that is not encrypted.
    pub key: &'static str,
    pub cipher_page_size: i32,
    pub cipher_plaintext_header_size: i32,
    pub kdf_iter: i32,
    pub cipher_kdf_algorithm: &'static str,
    pub cipher_hmac_algorithm: &'static str,
    pub cipher_salt: Option<&'static str>,
    pub cipher_compatibility: Option<i32>,
    /// `DELETE`, `TRUNCATE`, `PERSIST`, `MEMORY`, `WAL` or `OFF`.
    pub journal_mode: &'static str,
    pub foreign_keys: bool,
    /// `EXTRA`, `FULL`, `NORMAL` or `OFF`.
    pub synchronous: &'static str,
    /// `NORMAL` or `EXCLUSIVE`.
    pub locking_mode: &'static str,
    pub read_only: bool,
}

impl SqliteConfig {
    /// Whether these are the settings of a database that nobody configured.
    pub open spec fn is_default(self) -> bool {
        &&& self.key@ == ""@
        &&& self.cipher_page_size == 4096
        &&& self.cipher_plaintext_header_size == 0
        &&& self.kdf_iter == 256000
        &&& self.cipher_salt is None
        &&& self.cipher_compatibility is None
        &&& self.cipher_kdf_algorithm@ == "PBKDF2_HMAC_SHA512"@
        &&& self.cipher_hmac_algorithm@ == "HMAC_SHA512"@
        &&& self.journal_mode@ == "DELETE"@
        &&& self.foreign_keys
        &&& self.synchronous@ == "FULL"@
        &&& self.locking_mode@ == "NORMAL"@
        &&& !self.read_only
    }
}

impl Default for SqliteConfig {
    fn default() -> (out: Self)
        ensures
            out.is_default(),
    {
        SqliteConfig {
            key: "",
            cipher_page_size: 4096,
            cipher_plaintext_header_size: 0,
            kdf_iter: 256000,
            cipher_salt: None,
            cipher_compatibility: None,
            cipher_kdf_algorithm: "PBKDF2_HMAC_SHA512",
            cipher_hmac_algorithm: "HMAC_SHA512",
            journal_mode: "DELETE",
            foreign_keys: true,
            synchronous: "FULL",
            locking_mode: "NORMAL",
            read_only: false,
        }
    }
}

/// The options that a connection to an SQLite database is opened with.
#[derive(Debug, Clone, PartialEq, Eq)]
pub struct SqliteOptions {
    /// The connection string that the options start from.
    pub url: String,
    /// The pragmas in the order in which they are set; a later setting of
    /// a name replaces an earlier one.
    pub pragmas: Vec<(String, String)>,
    pub foreign_keys: bool,
    pub journal_mode: JournalMode,
    pub synchronous: Synchronous,
    pub locking_mode: LockingMode,
    pub create_if_missing: bool,
}

pub struct SqliteOptionsView {
    pub url: Seq<char>,
    pub pragmas: Seq<(Seq<char>, Seq<char>)>,
    pub foreign_keys: bool,
    pub journal_mode: JournalMode,
    pub synchronous: Synchronous,
    pub locking_mode: LockingMode,
    pub create_if_missing: bool,
}

impl View for SqliteOptions {
    type V = SqliteOptionsView;

    open spec fn view(&self) -> SqliteOptionsView {
        SqliteOptionsView {
            url: self.url@,
            pragmas: self.pragmas.deep_view(),
            foreign_keys: self.foreign_keys,
            journal_mode: self.journal_mode,
            synchronous: self.synchronous,
            locking_mode: self.locking_mode,
            create_if_missing: self.create_if_missing,
        }
    }
}

/// Whether a connection string names a database that lives in memory only.
pub open spec fn is_in_memory(db: Seq<char>) -> bool {
    occurs(db, ":memory"@) || occurs(db, "mode=memory"@)
}

/// The pragma that sets the salt, where one is given.
pub open spec fn salt_pragma(salt: Option<&'static str>) -> Seq<(Seq<char>, Seq<char>)> {
    match salt {
        Some(s) => seq![("cipher_hmac_algorithm"@, s@)],
        None => Seq::empty(),
    }
}

/// The pragma that sets the cipher compatibility, where one is given.
pub open spec fn compatibility_pragma(level: Option<i32>) -> Seq<(Seq<char>, Seq<char>)> {
    match level {
        Some(n) => seq![("cipher_compatibility"@, decimal(n as int))],
        None => Seq::empty(),
    }
}

/// The pragmas of an encrypted database, in the order in which they are
/// set; none for a database without a key.
pub open spec fn cipher_pragmas(config: SqliteConfig) -> Seq<(Seq<char>, Seq<char>)> {
    if config.key@.len() == 0 {
        Seq::empty()
    } else {
        seq![
            ("key"@, config.key@),
            ("cipher_kdf_algorithm"@, config.cipher_kdf_algorithm@),
            ("cipher_plaintext_header_size"@, decimal(config.cipher_plaintext_header_size as int)),
            ("cipher_page_size"@, decimal(config.cipher_page_size as int)),
            ("kdf_iter"@, decimal(config.kdf_iter as int)),
            ("cipher_hmac_algorithm"@, config.cipher_hmac_algorithm@),
        ] + salt_pragma(config.cipher_salt) + compatibility_pragma(config.cipher_compatibility)
    }
}

/// The journal mode that a setting names; `Delete` where it names none.
pub open spec fn journal_mode_of(name: Seq<char>) -> JournalMode {
    match journal_mode_named(lower_text(name)) {
        Some(mode) => mode,
        None => JournalMode::Delete,
    }
}

/// The synchronous setting that a setting names; `Full` where it names none.
pub open spec fn synchronous_of(name: Seq<char>) -> Synchronous {
    match synchronous_named(lower_text(name)) {
        Some(mode) => mode,
        None => Synchronous::Full,
    }
}

/// The locking mode that a setting names; `Normal` where it names none.
pub open spec fn locking_mode_of(name: Seq<char>) -> LockingMode {
    match locking_mode_named(lower_text(name)) {
        Some(mode) => mode,
        None => LockingMode::Normal,
    }
}

/// The options for the database `db` under the settings `config`.
pub open spec fn sqlite_options(db: Seq<char>, config: SqliteConfig) -> SqliteOptionsView {
    SqliteOptionsView {
        url: if is_in_memory(db) {
            IN_MEMORY_URL@
        } else {
            db
        },
        pragmas: cipher_pragmas(config),
        foreign_keys: config.foreign_keys,
        journal_mode: journal_mode_of(config.journal_mode@),
        synchronous: synchronous_of(config.synchronous@),
        locking_mode: locking_mode_of(config.locking_mode@),
        create_if_missing: true,
    }
}

fn pragma(name: &str, value: &str) -> (out: (String, String))
    ensures
        out.0@ == name@,
        out.1@ == value@,
{
    (name.to_owned(), value.to_owned())
}

fn number_pragma(name: &str, value: i32) -> (out: (String, String))
    ensures
        out.0@ == name@,
        out.1@ == decimal(value as int),
{
    (name.to_owned(), i32_to_string(value))
}

/// Works out the options that a connection to `db` is opened with.
pub fn sqlite_config_to_options(db: &str, config: SqliteConfig) -> (out: SqliteOptions)
    ensures
        out@ == sqlite_options(db@, config),
{
    let in_memory = str_contains(db, ":memory") || str_contains(db, "mode=memory");
    let url = if in_memory {
        IN_MEMORY_URL.to_owned()
    } else {
        db.to_owned()
    };
    let mut pragmas: Vec<(String, String)> = Vec::new();
    if !config.key.is_empty() {
        pragmas.push(pragma("key", config.key));
        pragmas.push(pragma("cipher_kdf_algorithm", config.cipher_kdf_algorithm));
        pragmas.push(
            number_pragma("cipher_plaintext_header_size", config.cipher_plaintext_header_size),
        );
        pragmas.push(number_pragma("cipher_page_size", config.cipher_page_size));
        pragmas.push(number_pragma("kdf_iter", config.kdf_iter));
        pragmas.push(pragma("cipher_hmac_algorithm", config.cipher_hmac_algorithm));
        if let Some(salt) = config.cipher_salt {
            pragmas.push(pragma("cipher_hmac_algorithm", salt));
        }
        if let Some(level) = config.cipher_compatibility {
            pragmas.push(number_pragma("cipher_compatibility", level));
        }
    }
    assert(pragmas.deep_view() =~= cipher_pragmas(config));
    let journal_mode = match parse_journal_mode(config.journal_mode) {
        Some(mode) => mode,
        None => JournalMode::Delete,
    };
    let synchronous = match parse_synchronous(config.synchronous) {
        Some(mode) => mode,
        None => Synchronous::Full,
    };
    let locking_mode = match parse_locking_mode(config.locking_mode) {
        Some(mode) => mode,
        None => LockingMode::Normal,
    };
    SqliteOptions {
        url,
        pragmas,
        foreign_keys: config.foreign_keys,
        journal_mode,
        synchronous,
        locking_mode,
        create_if_missing: true,
    }
}

/// The name of the database file in a connection string: what follows the
/// first colon.
pub open spec fn file_part(connection_string: Seq<char>) -> Seq<char> {
    split_at_first(connection_string, ':')->Some_0.1
}

/// The name of the database file in a connection string.
pub fn database_file(connection_string: &str) -> (out: &str)
    requires
        connection_string@.contains(':'),
    ensures
        out@ == file_part(connection_string@),
{
    match str_split_once(connection_string, ':') {
        Some(parts) => parts.1,
        None => connection_string,
    }
}

/// The connection string of the database file at `path`.
pub fn connection_for(path: &str) -> (out: String)
    ensures
        out@ == SQLITE_SCHEME@ + path@,
{
    let mut out = SQLITE_SCHEME.to_owned();
    out.append(path);
    out
}

/// Turns the connection string that a user gave into one whose file lies
/// under `app_path`.
pub fn path_mapper(app_path: &str, connection_string: &str) -> (out: String)
    requires
        connection_string@.contains(':'),
    ensures
        starts_with(out@, SQLITE_SCHEME@),
{
    let joined = join_path(app_path, database_file(connection_string));
    let out = connection_for(joined.as_str());
    proof {
        lemma_starts_with_first_part(SQLITE_SCHEME@, joined@);
    }
    out
}

/// Configuration of the plugin.
#[derive(Debug, Clone, PartialEq, Eq)]
pub struct PluginConfig {
    /// The databases that are loaded when the plugin starts.
    pub preload: Vec<String>,
}

impl Default for PluginConfig {
    fn default() -> (out: Self)
        ensures
            out.preload@.len() == 0,
    {
        PluginConfig { preload: Vec::new() }
    }
}

/// The direction of a migration.
#[derive(Debug, Clone, Copy, PartialEq, Eq, Structural)]
pub enum MigrationKind {
    Up,
    Down,
}

/// The kind of a migration as the migrator knows it.
#[derive(Debug, Clone, Copy, PartialEq, Eq, Structural)]
pub enum MigrationType {
    Simple,
    ReversibleUp,
    ReversibleDown,
}

/// The kind that the migrator knows a direction as.
pub open spec fn migration_type_of(kind: MigrationKind) -> MigrationType {
    match kind {
        MigrationKind::Up => MigrationType::ReversibleUp,
        MigrationKind::Down => MigrationType::ReversibleDown,
    }
}

impl From<MigrationKind> for MigrationType {
    fn from(kind: MigrationKind) -> (out: Self) {
        match kind {
            MigrationKind::Up => MigrationType::ReversibleUp,
            MigrationKind::Down => MigrationType::ReversibleDown,
        }
    }
}

impl vstd::std_specs::convert::FromSpecImpl<MigrationKind> for MigrationType {
    open spec fn obeys_from_spec() -> bool {
        true
    }

    open spec fn from_spec(kind: MigrationKind) -> Self {
        migration_type_of(kind)
    }
}

/// A migration definition.
#[derive(Debug, Clone, PartialEq, Eq)]
pub struct Migration {
    pub version: i64,
    pub description: &'static str,
    pub sql: &'static str,
    pub kind: MigrationKind,
}

/// A migration as it is handed to the migrator.
#[derive(Debug, Clone, PartialEq, Eq)]
pub struct ResolvedMigration {
    pub version: i64,
    pub description: String,
    pub migration_type: MigrationType,
    pub sql: String,
}

pub struct ResolvedMigrationView {
    pub version: i64,
    pub description: Seq<char>,
    pub migration_type: MigrationType,
    pub sql: Seq<char>,
}

impl View for ResolvedMigration {
    type V = ResolvedMigrationView;

    open spec fn view(&self) -> ResolvedMigrationView {
        ResolvedMigrationView {
            version: self.version,
            description: self.description@,
            migration_type: self.migration_type,
            sql: self.sql@,
        }
    }
}

impl DeepView for ResolvedMigration {
    type V = ResolvedMigrationView;

    open spec fn deep_view(&self) -> ResolvedMigrationView {
        self@
    }
}

/// The migrations of one database, in the order in which they were given.
#[derive(Debug, Clone, PartialEq, Eq)]
pub struct MigrationList(pub Vec<Migration>);

/// What the migrator gets for one migration.
pub open spec fn resolved_migration(migration: Migration) -> ResolvedMigrationView {
    ResolvedMigrationView {
        version: migration.version,
        description: migration.description@,
        migration_type: migration_type_of(migration.kind),
        sql: migration.sql@,
    }
}

/// What the migrator gets for the first `n` migrations: the upward ones,
/// in their order.
pub open spec fn resolved_migrations(migrations: Seq<Migration>, n: nat) -> Seq<
    ResolvedMigrationView,
>
    decreases n,
{
    if n == 0 {
        Seq::empty()
    } else {
        let before = resolved_migrations(migrations, (n - 1) as nat);
        if migrations[n - 1].kind == MigrationKind::Up {
            before.push(resolved_migration(migrations[n - 1]))
        } else {
            before
        }
    }
}

impl MigrationList {
    /// Hands the upward migrations to the migrator, in their order.
    pub fn resolve(self) -> (out: Vec<ResolvedMigration>)
        ensures
            out.deep_view() == resolved_migrations(self.0@, self.0@.len()),
    {
        let mut out: Vec<ResolvedMigration> = Vec::new();
        let mut i: usize = 0;
        while i < self.0.len()
            invariant
                i <= self.0.len(),
                out.deep_view() == resolved_migrations(self.0@, i as nat),
            decreases self.0.len() - i,
        {
            let migration = &self.0[i];
            if let MigrationKind::Up = migration.kind {
                out.push(
                    ResolvedMigration {
                        version: migration.version,
                        description: migration.description.to_owned(),
                        migration_type: MigrationType::from(migration.kind),
                        sql: migration.sql.to_owned(),
                    },
                );
            }
            i += 1;
        }
        out
    }
}

/// Whether an optional store is well formed.
pub open spec fn store_wf<V>(store: Option<StringMap<V>>) -> bool {
    match store {
        Some(entries) => entries.wf(),
        None => true,
    }
}

/// Builder of the database plugin: collects, by connection string, the
/// migrations and the settings of the databases.
pub struct Builder {
    migrations: Option<StringMap<MigrationList>>,
    sqlite_options: Option<StringMap<SqliteConfig>>,
}

impl Default for Builder {
    fn default() -> (out: Self)
        ensures
            out.wf(),
            out.migrations() is None,
            out.sqlite_options() is None,
    {
        Builder { migrations: None, sqlite_options: None }
    }
}

impl Builder {
    /// The migrations by connection string; none before any was added.
    pub closed spec fn migrations(&self) -> Option<Map<Seq<char>, MigrationList>> {
        match self.migrations {
            Some(entries) => Some(entries.view()),
            None => None,
        }
    }

    /// The settings by connection string; none before any was added.
    pub closed spec fn sqlite_options(&self) -> Option<Map<Seq<char>, SqliteConfig>> {
        match self.sqlite_options {
            Some(entries) => Some(entries.view()),
            None => None,
        }
    }

    /// No connection string is kept twice.
    pub closed spec fn wf(&self) -> bool {
        store_wf(self.migrations) && store_wf(self.sqlite_options)
    }

    pub fn new() -> (out: Self)
        ensures
            out.wf(),
            out.migrations() is None,
            out.sqlite_options() is None,
    {
        Self::default()
    }

    /// Add migrations to a database, in place of those it had.
    #[must_use]
    pub fn add_migrations(self, db_url: &str, migrations: Vec<Migration>) -> (out: Self)
        requires
            self.wf(),
        ensures
            out.wf(),
            out.sqlite_options() == self.sqlite_options(),
            out.migrations() == Some(
                optional_map(self.migrations()).insert(db_url@, MigrationList(migrations)),
            ),
    {
        let Builder { migrations: store, sqlite_options } = self;
        let mut entries = match store {
            Some(entries) => entries,
            None => StringMap::new(),
        };
        entries.insert(db_url.to_owned(), MigrationList(migrations));
        Builder { migrations: Some(entries), sqlite_options }
    }

    /// Add sqlite options to a database, in place of those it had.
    #[must_use]
    pub fn add_sqlite_options(self, db_url: &str, options: SqliteConfig) -> (out: Self)
        requires
            self.wf(),
        ensures
            out.wf(),
            out.migrations() == self.migrations(),
            out.sqlite_options() == Some(
                optional_map(self.sqlite_options()).insert(db_url@, options),
            ),
    {
        let Builder { migrations, sqlite_options: store } = self;
        let mut entries = match store {
            Some(entries) => entries,
            None => StringMap::new(),
        };
        entries.insert(db_url.to_owned(), options);
        Builder { migrations, sqlite_options: Some(entries) }
    }

    /// Whether any settings have been added.
    pub fn has_sqlite_options(&self) -> (out: bool)
        ensures
            out == (self.sqlite_options() is Some),
    {
        self.sqlite_options.is_some()
    }

    /// Whether any migrations have been added.
    pub fn has_migrations(&self) -> (out: bool)
        ensures
            out == (self.migrations() is Some),
    {
        self.migrations.is_some()
    }

    /// Takes out the settings that a database is opened with: those kept
    /// for it, else the default ones.
    pub fn take_sqlite_options(&mut self, db: &str) -> (out: SqliteConfig)
        requires
            old(self).wf(),
            old(self).sqlite_options() is Some,
        ensures
            final(self).wf(),
            final(self).migrations() == old(self).migrations(),
            final(self).sqlite_options() == Some(old(self).sqlite_options()->Some_0.remove(db@)),
            taken(old(self).sqlite_options()->Some_0, db@, out),
    {
        match &mut self.sqlite_options {
            Some(entries) => sqlite_options_for(entries, db),
            None => SqliteConfig::default(),
        }
    }

    /// Takes out the migrations of a database, if it has any.
    pub fn take_migrations(&mut self, db: &str) -> (out: Option<MigrationList>)
        requires
            old(self).wf(),
            old(self).migrations() is Some,
        ensures
            final(self).wf(),
            final(self).sqlite_options() == old(self).sqlite_options(),
            final(self).migrations() == Some(old(self).migrations()->Some_0.remove(db@)),
            out == lookup(old(self).migrations()->Some_0, db@),
    {
        match &mut self.migrations {
            Some(entries) => entries.remove(db),
            None => None,
        }
    }

    /// Hands over the stores of what was not taken out: the migrations and
    /// the settings, each empty where none was added.
    pub fn into_stores(self) -> (out: (StringMap<MigrationList>, StringMap<SqliteConfig>))
        requires
            self.wf(),
        ensures
            out.0.wf(),
            out.1.wf(),
            out.0.view() == optional_map(self.migrations()),
            out.1.view() == optional_map(self.sqlite_options()),
    {
        let Builder { migrations, sqlite_options } = self;
        let first = match migrations {
            Some(entries) => entries,
            None => StringMap::new(),
        };
        let second = match sqlite_options {
            Some(entries) => entries,
            None => StringMap::new(),
        };
        (first, second)
    }
}

/// The map that an optional map stands for: the empty one for none.
pub open spec fn optional_map<V>(map: Option<Map<Seq<char>, V>>) -> Map<Seq<char>, V> {
    match map {
        Some(m) => m,
        None => Map::empty(),
    }
}

/// The value of `key` in `map`, if it has one.
pub open spec fn lookup<V>(map: Map<Seq<char>, V>, key: Seq<char>) -> Option<V> {
    if map.contains_key(key) {
        Some(map[key])
    } else {
        None
    }
}

/// Whether `config` is what taking the settings of `db` out of `store`
/// gives: the settings kept for `db`, or the default ones.
pub open spec fn taken(store: Map<Seq<char>, SqliteConfig>, db: Seq<char>, config: SqliteConfig) -> bool {
    if store.contains_key(db) {
        config == store[db]
    } else {
        config.is_default()
    }
}

/// Takes the settings of `db` out of the store; the default ones where it
/// has none.
pub fn sqlite_options_for(store: &mut StringMap<SqliteConfig>, db: &str) -> (out: SqliteConfig)
    requires
        old(store).wf(),
    ensures
        final(store).wf(),
        final(store).view() == old(store).view().remove(db@),
        taken(old(store).view(), db@, out),
{
    match store.remove(db) {
        Some(options) => options,
        None => SqliteConfig::default(),
    }
}

/// What a value of a query is, as far as binding it goes.
#[derive(Debug, Clone, Copy, PartialEq, Eq, Structural)]
pub enum ValueKind {
    Null,
    Bool,
    Number,
    Text,
    Array,
    Object,
}

/// How a value of a query is bound.
#[derive(Debug, Clone, Copy, PartialEq, Eq, Structural)]
pub enum Binding {
    /// As the SQL null.
    Null,
    /// As its text.
    Text,
    /// As a floating-point number.
    Number,
    /// As a JSON document.
    Json,
}

/// How a value of this kind is bound.
pub open spec fn binding_of(kind: ValueKind) -> Binding {
    match kind {
        ValueKind::Null => Binding::Null,
        ValueKind::Text => Binding::Text,
        ValueKind::Number => Binding::Number,
        ValueKind::Bool => Binding::Json,
        ValueKind::Array => Binding::Json,
        ValueKind::Object => Binding::Json,
    }
}

/// Tells how a value of a query is bound: null as null, a text as text, a
/// number as a number, everything else as a JSON document.
pub fn binding_for(kind: ValueKind) -> (out: Binding)
    ensures
        out == binding_of(kind),
{
    match kind {
        ValueKind::Null => Binding::Null,
        ValueKind::Text => Binding::Text,
        ValueKind::Number => Binding::Number,
        _ => Binding::Json,
    }
}

/// How the value of a column is read.
#[derive(Debug, Clone, Copy, PartialEq, Eq, Structural)]
pub enum ColumnKind {
    Null,
    Text,
    Real,
    Integer,
    Boolean,
    Blob,
}

/// How a column of the type of this name is read, if the type is known.
pub open spec fn column_kind_named(name: Seq<char>) -> Option<ColumnKind> {
    if name == "TEXT"@ {
        Some(ColumnKind::Text)
    } else if name == "REAL"@ {
        Some(ColumnKind::Real)
    } else if name == "INTEGER"@ || name == "NUMERIC"@ {
        Some(ColumnKind::Integer)
    } else if name == "BOOLEAN"@ {
        Some(ColumnKind::Boolean)
    } else if name == "BLOB"@ {
        Some(ColumnKind::Blob)
    } else if name == "NULL"@ {
        Some(ColumnKind::Null)
    } else {
        None
    }
}

fn is_named(column_type: &String, name: &str) -> (out: bool)
    ensures
        out == (column_type@ == name@),
{
    let wanted = name.to_owned();
    *column_type == wanted
}

/// Tells how a column is read from the name of its type; fails with
/// [`Error::UnsupportedDatatype`] on a type that is not known.
pub fn column_kind(column_type: &str) -> (out: Result<ColumnKind, Error>)
    ensures
        match column_kind_named(column_type@) {
            Some(kind) => out == Ok::<ColumnKind, Error>(kind),
            None => out matches Err(Error::UnsupportedDatatype(name)) && name@ == column_type@,
        },
{
    let name = column_type.to_owned();
    if is_named(&name, "TEXT") {
        Ok(ColumnKind::Text)
    } else if is_named(&name, "REAL") {
        Ok(ColumnKind::Real)
    } else if is_named(&name, "INTEGER") || is_named(&name, "NUMERIC") {
        Ok(ColumnKind::Integer)
    } else if is_named(&name, "BOOLEAN") {
        Ok(ColumnKind::Boolean)
    } else if is_named(&name, "BLOB") {
        Ok(ColumnKind::Blob)
    } else if is_named(&name, "NULL") {
        Ok(ColumnKind::Null)
    } else {
        Err(Error::UnsupportedDatatype(name))
    }
}

/// The databases that a request to close names: the one it names, which
/// has to be loaded, or all that are loaded where it names none.
pub fn close_targets<P>(instances: &StringMap<P>, db: Option<String>) -> (out: Result<
    Vec<String>,
    Error,
>)
    requires
        instances.wf(),
    ensures
        match db {
            Some(name) => if instances.view().contains_key(name@) {
                out matches Ok(names) && names.deep_view() == seq![name@]
            } else {
                out == Err::<Vec<String>, Error>(Error::DatabaseNotLoaded(name))
            },
            None => out matches Ok(names) && names.deep_view() == instances.keys(),
        },
{
    match db {
        Some(name) => {
            if instances.contains_key(name.as_str()) {
                let mut names: Vec<String> = Vec::new();
                names.push(name);
                Ok(names)
            } else {
                Err(Error::DatabaseNotLoaded(name))
            }
        },
        None => Ok(instances.key_list()),
    }
}

/// The connection that is loaded under `db`.
pub fn loaded<P>(instances: &StringMap<P>, db: String) -> (out: Result<&P, Error>)
    requires
        instances.wf(),
    ensures
        match out {
            Ok(pool) => instances.view().contains_key(db@) && *pool == instances.view()[db@],
            Err(e) => !instances.view().contains_key(db@) && e == Error::DatabaseNotLoaded(db),
        },
{
    match instances.get(db.as_str()) {
        Some(pool) => Ok(pool),
        None => Err(Error::DatabaseNotLoaded(db)),
    }
}

} // verus!
