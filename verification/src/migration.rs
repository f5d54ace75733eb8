//! The schema migrations of the photo library database and the step machine
//! that applies them.
//!
//! The database itself is driven by the caller: [`begin_check_and_migrate`]
//! and [`check_and_migrate`] hand out one [`DbAction`] at a time, and the
//! caller performs it and reports back a [`DbReply`] (or the error text).

use vstd::prelude::*;
use vstd::string::StringExecFns;
use vstd::string::StringSliceAdditionalSpecFns;
use crate::text::{decimal, decimal_text, eq_ignore_ascii_case, is_blank, is_blank_text};

verus! {

pub const DEDUPLICATION_SCHEMA: &'static str = "
                CREATE TABLE IF NOT EXISTS file_hashes (
                    file_id INTEGER PRIMARY KEY,
                    hash TEXT NOT NULL,
                    file_size INTEGER NOT NULL,
                    mtime INTEGER NOT NULL,
                    computed_at INTEGER NOT NULL,
                    FOREIGN KEY (file_id) REFERENCES afiles(id) ON DELETE CASCADE
                );
                CREATE INDEX IF NOT EXISTS idx_file_hashes_hash_size ON file_hashes(hash, file_size);
                CREATE INDEX IF NOT EXISTS idx_file_hashes_mtime ON file_hashes(mtime);

                CREATE TABLE IF NOT EXISTS duplicate_groups (
                    id INTEGER PRIMARY KEY AUTOINCREMENT,
                    hash TEXT NOT NULL,
                    file_size INTEGER NOT NULL,
                    file_count INTEGER NOT NULL,
                    total_size INTEGER NOT NULL,
                    reviewed INTEGER NOT NULL DEFAULT 0,
                    updated_at INTEGER NOT NULL
                );
                CREATE UNIQUE INDEX IF NOT EXISTS uidx_duplicate_groups_hash_size ON duplicate_groups(hash, file_size);

                CREATE TABLE IF NOT EXISTS duplicate_group_items (
                    group_id INTEGER NOT NULL,
                    file_id INTEGER NOT NULL,
                    is_keep INTEGER NOT NULL DEFAULT 0,
                    is_selected INTEGER NOT NULL DEFAULT 0,
                    score REAL NOT NULL DEFAULT 0,
                    PRIMARY KEY (group_id, file_id),
                    FOREIGN KEY (group_id) REFERENCES duplicate_groups(id) ON DELETE CASCADE,
                    FOREIGN KEY (file_id) REFERENCES afiles(id) ON DELETE CASCADE
                );
                CREATE INDEX IF NOT EXISTS idx_dup_items_group ON duplicate_group_items(group_id);
                CREATE INDEX IF NOT EXISTS idx_dup_items_file ON duplicate_group_items(file_id);
            ";

pub const SIMILARITY_SCHEMA: &'static str = "
                CREATE TABLE IF NOT EXISTS similarity_scans (
                    id INTEGER PRIMARY KEY AUTOINCREMENT,
                    scope_key TEXT NOT NULL UNIQUE,
                    source_version INTEGER NOT NULL,
                    status TEXT NOT NULL,
                    file_count INTEGER NOT NULL DEFAULT 0,
                    group_count INTEGER NOT NULL DEFAULT 0,
                    created_at INTEGER NOT NULL,
                    completed_at INTEGER
                );
                CREATE TABLE IF NOT EXISTS similarity_groups (
                    id INTEGER PRIMARY KEY AUTOINCREMENT,
                    scan_id INTEGER NOT NULL,
                    representative_file_id INTEGER NOT NULL,
                    file_count INTEGER NOT NULL,
                    latest_taken_date INTEGER NOT NULL DEFAULT 0,
                    min_score REAL NOT NULL DEFAULT 0,
                    max_score REAL NOT NULL DEFAULT 0,
                    FOREIGN KEY (scan_id) REFERENCES similarity_scans(id) ON DELETE CASCADE
                );
                CREATE INDEX IF NOT EXISTS idx_similarity_groups_scan ON similarity_groups(scan_id);
                CREATE TABLE IF NOT EXISTS similarity_group_items (
                    group_id INTEGER NOT NULL,
                    file_id INTEGER NOT NULL,
                    score REAL NOT NULL,
                    is_keep INTEGER NOT NULL DEFAULT 0,
                    PRIMARY KEY (group_id, file_id),
                    FOREIGN KEY (group_id) REFERENCES similarity_groups(id) ON DELETE CASCADE,
                    FOREIGN KEY (file_id) REFERENCES afiles(id) ON DELETE CASCADE
                );
                CREATE INDEX IF NOT EXISTS idx_similarity_items_group ON similarity_group_items(group_id);
                CREATE INDEX IF NOT EXISTS idx_similarity_items_file ON similarity_group_items(file_id);
            ";

pub const DEDUPLICATE_ALBUM_FILES: &'static str = "
        CREATE TEMP TABLE duplicate_afile_map (
            old_id INTEGER PRIMARY KEY,
            new_id INTEGER NOT NULL
        );

        INSERT INTO duplicate_afile_map (old_id, new_id)
        SELECT a.id, duplicates.new_id
        FROM afiles a
        JOIN (
            SELECT folder_id, name, MAX(id) AS new_id
            FROM afiles
            GROUP BY folder_id, name
            HAVING COUNT(*) > 1
        ) duplicates
          ON duplicates.folder_id = a.folder_id
         AND duplicates.name = a.name
        WHERE a.id <> duplicates.new_id;

        UPDATE albums
        SET cover_file_id = (
            SELECT new_id
            FROM duplicate_afile_map
            WHERE old_id = albums.cover_file_id
        )
        WHERE cover_file_id IN (SELECT old_id FROM duplicate_afile_map);

        UPDATE persons
        SET cover_face_id = NULL
        WHERE cover_face_id IN (
            SELECT faces.id
            FROM faces
            JOIN duplicate_afile_map ON duplicate_afile_map.old_id = faces.file_id
        );

        DELETE FROM afiles
        WHERE id IN (SELECT old_id FROM duplicate_afile_map);

        DROP INDEX IF EXISTS idx_afiles_folder_id_name;
        DROP INDEX IF EXISTS uidx_afiles_folder_id_name;
        CREATE UNIQUE INDEX uidx_afiles_folder_id_name
            ON afiles(folder_id, name);

        DROP TABLE duplicate_afile_map;
        ";

pub const COLLECTIONS_SCHEMA: &'static str = "CREATE TABLE IF NOT EXISTS acollections (
                        id INTEGER PRIMARY KEY AUTOINCREMENT,
                        name TEXT NOT NULL,
                        sort_order INTEGER NOT NULL DEFAULT 0,
                        created_at INTEGER NOT NULL,
                        updated_at INTEGER NOT NULL
                    );
                    CREATE INDEX IF NOT EXISTS idx_acollections_sort ON acollections(sort_order, id);

                    CREATE TABLE IF NOT EXISTS acollections_files (
                        collection_id INTEGER NOT NULL,
                        file_id INTEGER NOT NULL,
                        added_at INTEGER NOT NULL,
                        PRIMARY KEY (collection_id, file_id),
                        FOREIGN KEY (collection_id) REFERENCES acollections(id) ON DELETE CASCADE,
                        FOREIGN KEY (file_id) REFERENCES afiles(id) ON DELETE CASCADE
                    );
                    CREATE INDEX IF NOT EXISTS idx_acollections_files_file ON acollections_files(file_id);
                    CREATE INDEX IF NOT EXISTS idx_acollections_files_collection_added
                        ON acollections_files(collection_id, added_at DESC, file_id);";

pub const FILENAME_NOCASE_INDEX: &'static str = "CREATE INDEX IF NOT EXISTS idx_afiles_folder_name_nocase
                     ON afiles(folder_id, name COLLATE NOCASE)";

pub const FOLDER_SCAN_STATE_SCHEMA: &'static str = "CREATE TABLE IF NOT EXISTS folder_scan_state (
                        folder_id INTEGER NOT NULL,
                        scanner TEXT NOT NULL,
                        version INTEGER NOT NULL DEFAULT 0,
                        updated_at INTEGER NOT NULL,
                        PRIMARY KEY (folder_id, scanner),
                        FOREIGN KEY (folder_id) REFERENCES afolders(id) ON DELETE CASCADE
                    );
                    CREATE INDEX IF NOT EXISTS idx_folder_scan_state_scanner_version
                        ON folder_scan_state(scanner, version);";

pub const KEEP_STATE_BACKFILL: &'static str = "UPDATE similarity_group_items
                         SET is_keep = 1
                         WHERE EXISTS (
                             SELECT 1
                             FROM similarity_groups g
                             WHERE g.id = similarity_group_items.group_id
                               AND g.representative_file_id = similarity_group_items.file_id
                         );";

pub const TAG_GROUPS_SCHEMA: &'static str = "CREATE TABLE IF NOT EXISTS atag_groups (
        id INTEGER PRIMARY KEY AUTOINCREMENT,
        name TEXT NOT NULL COLLATE NOCASE UNIQUE,
        sort_order INTEGER NOT NULL DEFAULT 0,
        is_default INTEGER NOT NULL DEFAULT 0 CHECK(is_default IN (0, 1))
    );
    CREATE UNIQUE INDEX IF NOT EXISTS idx_atag_groups_default
        ON atag_groups(is_default) WHERE is_default = 1;
    INSERT INTO atag_groups(name, is_default)
        SELECT 'Default', 1 WHERE NOT EXISTS (SELECT 1 FROM atag_groups WHERE is_default = 1);";

pub const TAG_GROUP_COLUMN: &'static str = "ALTER TABLE atags ADD COLUMN group_id INTEGER REFERENCES atag_groups(id);";

pub const TAG_GROUP_TRIGGERS: &'static str = "UPDATE atags SET group_id = (SELECT id FROM atag_groups WHERE is_default = 1)
        WHERE group_id IS NULL;
        CREATE INDEX IF NOT EXISTS idx_atags_group_id ON atags(group_id);
        CREATE TRIGGER IF NOT EXISTS protect_default_tag_group_delete BEFORE DELETE ON atag_groups
        WHEN OLD.is_default = 1 BEGIN SELECT RAISE(ABORT, 'Cannot delete Default'); END;
        CREATE TRIGGER IF NOT EXISTS protect_default_tag_group_update BEFORE UPDATE ON atag_groups
        WHEN NEW.is_default != OLD.is_default OR (OLD.is_default = 1 AND NEW.name != OLD.name)
        BEGIN SELECT RAISE(ABORT, 'Cannot rename or replace Default'); END;
        CREATE TRIGGER IF NOT EXISTS assign_default_tag_group AFTER INSERT ON atags
        WHEN NEW.group_id IS NULL BEGIN UPDATE atags
        SET group_id = (SELECT id FROM atag_groups WHERE is_default = 1) WHERE id = NEW.id; END;
        CREATE TRIGGER IF NOT EXISTS require_tag_group BEFORE UPDATE OF group_id ON atags
        WHEN NEW.group_id IS NULL BEGIN SELECT RAISE(ABORT, 'Tag group is required'); END;";

/// One entry of the migration table.
pub struct Migration {
    pub version: i32,
    pub description: &'static str,
    pub sql: &'static str,
}

/// The migration table, oldest first.
pub open spec fn migration_table() -> Seq<Migration> {
    seq![
        Migration { version: 1, description: "Create deduplication tables", sql: DEDUPLICATION_SCHEMA },
        Migration { version: 2, description: "Add afiles.format_label column", sql: "" },
        Migration { version: 3, description: "Add thumbnail cache metadata columns", sql: "" },
        Migration { version: 4, description: "Add last_scan_time for file and album sync", sql: "" },
        Migration { version: 5, description: "Post v0.2.2 schema updates", sql: "" },
        Migration { version: 9, description: "Post v0.2.4 schema updates", sql: "" },
        Migration { version: 10, description: "Create visual similarity review tables", sql: SIMILARITY_SCHEMA },
        Migration { version: 11, description: "Add file culling status", sql: "" },
        Migration { version: 12, description: "Cache direct subfolder state on folders", sql: "" },
        Migration { version: 13, description: "Persist folder filesystem identity", sql: "" },
        Migration { version: 14, description: "Store scan totals", sql: "" },
        Migration { version: 15, description: "Persist visual similarity keep state", sql: "" },
        Migration { version: 16, description: "Add motion photo offset", sql: "" },
        Migration { version: 17, description: "Add tag groups and persistent ordering", sql: "" },
        Migration { version: 18, description: "Add albums.scan_cursor for resumable scans", sql: "" },
    ]
}

/// The migration table.
pub fn get_migrations() -> (migrations: Vec<Migration>)
    ensures
        migrations@ == migration_table(),
{
    let migrations = vec![
        // v0.1.0: initial release schema
        Migration { version: 1, description: "Create deduplication tables", sql: DEDUPLICATION_SCHEMA },
        // v0.1.x: RAW / format_label support
        Migration { version: 2, description: "Add afiles.format_label column", sql: "" },
        // v0.2.2: thumbnail cache
        Migration { version: 3, description: "Add thumbnail cache metadata columns", sql: "" },
        // v0.2.2: incremental scan foundation
        Migration { version: 4, description: "Add last_scan_time for file and album sync", sql: "" },
        // v0.2.4: folder exclusion, inode, search exclusion
        Migration { version: 5, description: "Post v0.2.2 schema updates", sql: "" },
        // after v0.2.4: collections, unique folder names, Live Photo,
        // case-insensitive index, folder scan state
        Migration { version: 9, description: "Post v0.2.4 schema updates", sql: "" },
        Migration { version: 10, description: "Create visual similarity review tables", sql: SIMILARITY_SCHEMA },
        Migration { version: 11, description: "Add file culling status", sql: "" },
        Migration { version: 12, description: "Cache direct subfolder state on folders", sql: "" },
        Migration { version: 13, description: "Persist folder filesystem identity", sql: "" },
        Migration { version: 14, description: "Store scan totals", sql: "" },
        Migration { version: 15, description: "Persist visual similarity keep state", sql: "" },
        Migration { version: 16, description: "Add motion photo offset", sql: "" },
        Migration { version: 17, description: "Add tag groups and persistent ordering", sql: "" },
        Migration { version: 18, description: "Add albums.scan_cursor for resumable scans", sql: "" },
    ];
    assert(migrations@ =~= migration_table());
    migrations
}

/// The versions of the migration table increase strictly, so applying every
/// migration above the stored version applies each at most once, in order.
pub proof fn lemma_versions_strictly_increase()
    ensures
        forall|i: int, j: int|
            0 <= i < j < migration_table().len() ==> #[trigger] migration_table()[i].version
                < #[trigger] migration_table()[j].version,
        migration_table().len() == 15,
        migration_table().last().version == 18,
{
}


/// How a failed database call is reported.
#[derive(Clone, Copy)]
pub enum FailureContext {
    /// The database's own message, as it is.
    Bare,
    /// `"<prefix>: <message>"`.
    Fixed(&'static str),
    /// `"Migration <version> failed: <message>"`.
    Migration(i32),
}

/// The message of a failure reported in `context` with cause `cause`.
pub open spec fn failure_text(context: FailureContext, cause: Seq<char>) -> Seq<char> {
    match context {
        FailureContext::Bare => cause,
        FailureContext::Fixed(prefix) => prefix@ + ": "@ + cause,
        FailureContext::Migration(version) => "Migration "@ + decimal_text(version as int)
            + " failed: "@ + cause,
    }
}

/// A progress line printed while migrating.
#[derive(Clone, Copy)]
pub enum Notice {
    CurrentVersion(i32),
    Applying { version: i32, description: &'static str },
    Migrated(i32),
    UpToDate,
}

/// The text of a progress line.
pub open spec fn notice_text(notice: Notice) -> Seq<char> {
    match notice {
        Notice::CurrentVersion(v) => "Current DB version: "@ + decimal_text(v as int),
        Notice::Applying { version, description } => "Applying migration "@ + decimal_text(
            version as int,
        ) + ": "@ + description@,
        Notice::Migrated(v) => "Database successfully migrated to version "@ + decimal_text(
            v as int,
        ),
        Notice::UpToDate => "Database is up to date."@,
    }
}

/// One step of a migration plan.
#[derive(Clone, Copy)]
pub enum MigrationOp {
    /// Print a progress line.
    Log(Notice),
    /// Look the column up in `PRAGMA table_info(<table>)`; when it is there,
    /// the next `skip` steps are passed over.
    SkipIfColumnExists { table: &'static str, column: &'static str, skip: usize },
    /// Run one statement (`Connection::execute`).
    Execute { sql: &'static str, context: FailureContext },
    /// Run a batch of statements (`Connection::execute_batch`).
    ExecuteBatch { sql: &'static str, context: FailureContext },
    /// Open a transaction (`Connection::unchecked_transaction`).
    BeginTransaction { context: FailureContext },
    /// Commit the open transaction.
    Commit { context: FailureContext },
    /// Store the schema version: `PRAGMA user_version = <version>;`.
    SetUserVersion { version: i32 },
}

/// Adds a column unless the table already has it.
pub open spec fn add_column(
    table: &'static str,
    column: &'static str,
    alter: &'static str,
    context: FailureContext,
) -> Seq<MigrationOp> {
    seq![
        MigrationOp::SkipIfColumnExists { table, column, skip: 1 },
        MigrationOp::Execute { sql: alter, context },
    ]
}

/// The steps of migration 9 that merge duplicate album files, in one transaction.
pub open spec fn deduplicate_album_files() -> Seq<MigrationOp> {
    seq![
        MigrationOp::BeginTransaction {
            context: FailureContext::Fixed(
                "Migration 9 (deduplicate album files) failed starting transaction",
            ),
        },
        MigrationOp::ExecuteBatch {
            sql: DEDUPLICATE_ALBUM_FILES,
            context: FailureContext::Fixed("Migration 9 (deduplicate album files) failed"),
        },
        MigrationOp::Commit {
            context: FailureContext::Fixed(
                "Migration 9 (deduplicate album files) failed committing transaction",
            ),
        },
    ]
}

/// The steps of migration 17 (tag groups), in one transaction; safe to run again
/// after an interrupted run.
pub open spec fn tag_group_steps() -> Seq<MigrationOp> {
    seq![
        MigrationOp::BeginTransaction { context: FailureContext::Bare },
        MigrationOp::ExecuteBatch { sql: TAG_GROUPS_SCHEMA, context: FailureContext::Bare },
        MigrationOp::SkipIfColumnExists { table: "atags", column: "group_id", skip: 1 },
        MigrationOp::ExecuteBatch { sql: TAG_GROUP_COLUMN, context: FailureContext::Bare },
        MigrationOp::ExecuteBatch { sql: TAG_GROUP_TRIGGERS, context: FailureContext::Bare },
        MigrationOp::Commit { context: FailureContext::Bare },
    ]
}

/// The work of one migration, after its progress line.
pub open spec fn migration_steps(m: Migration) -> Seq<MigrationOp> {
    if m.version == 2 {
        add_column("afiles", "format_label", "ALTER TABLE afiles ADD COLUMN format_label TEXT",
            FailureContext::Migration(2))
    } else if m.version == 3 {
        add_column("athumbs", "thumb_key", "ALTER TABLE athumbs ADD COLUMN thumb_key TEXT",
            FailureContext::Migration(3))
        + add_column("athumbs", "thumb_mtime", "ALTER TABLE athumbs ADD COLUMN thumb_mtime INTEGER",
            FailureContext::Migration(3))
        + add_column("athumbs", "thumb_size", "ALTER TABLE athumbs ADD COLUMN thumb_size INTEGER",
            FailureContext::Migration(3))
        + add_column("athumbs", "updated_at", "ALTER TABLE athumbs ADD COLUMN updated_at INTEGER",
            FailureContext::Migration(3))
        + seq![MigrationOp::Execute {
            sql: "CREATE INDEX IF NOT EXISTS idx_athumbs_thumb_key ON athumbs(thumb_key)",
            context: FailureContext::Migration(3),
        }]
    } else if m.version == 4 {
        add_column("afiles", "last_scan_time",
            "ALTER TABLE afiles ADD COLUMN last_scan_time INTEGER DEFAULT 0",
            FailureContext::Fixed("Migration 4 failed adding last_scan_time"))
        + add_column("albums", "last_scan_time",
            "ALTER TABLE albums ADD COLUMN last_scan_time INTEGER DEFAULT 0",
            FailureContext::Fixed("Migration 4 failed adding last_scan_time"))
        + seq![MigrationOp::Execute {
            sql: "CREATE INDEX IF NOT EXISTS idx_afiles_last_scan_time ON afiles(last_scan_time)",
            context: FailureContext::Fixed("Migration 4 failed adding last_scan_time index"),
        }]
    } else if m.version == 5 {
        add_column("afolders", "is_excluded_from_search",
            "ALTER TABLE afolders ADD COLUMN is_excluded_from_search INTEGER DEFAULT 0",
            FailureContext::Fixed("Migration 5 failed adding is_excluded_from_search"))
        + add_column("afiles", "inode", "ALTER TABLE afiles ADD COLUMN inode INTEGER",
            FailureContext::Fixed("Migration 5 failed adding inode"))
        + seq![MigrationOp::Execute {
            sql: "CREATE INDEX IF NOT EXISTS idx_afolders_is_excluded_from_search ON afolders(is_excluded_from_search)",
            context: FailureContext::Fixed("Migration 5 failed adding is_excluded_from_search index"),
        }]
    } else if m.version == 9 {
        seq![MigrationOp::ExecuteBatch {
            sql: COLLECTIONS_SCHEMA,
            context: FailureContext::Fixed("Migration 9 failed creating collections"),
        }]
        + deduplicate_album_files()
        + add_column("afiles", "content_identifier",
            "ALTER TABLE afiles ADD COLUMN content_identifier TEXT",
            FailureContext::Fixed("Migration 9 failed adding content_identifier"))
        + add_column("afiles", "media_subtype", "ALTER TABLE afiles ADD COLUMN media_subtype TEXT",
            FailureContext::Fixed("Migration 9 failed adding media_subtype"))
        + add_column("afiles", "live_photo_video_id",
            "ALTER TABLE afiles ADD COLUMN live_photo_video_id INTEGER",
            FailureContext::Fixed("Migration 9 failed adding live_photo_video_id"))
        + seq![
            MigrationOp::Execute {
                sql: "CREATE INDEX IF NOT EXISTS idx_afiles_content_identifier ON afiles(content_identifier)",
                context: FailureContext::Fixed("Migration 9 failed adding content_identifier index"),
            },
            MigrationOp::Execute {
                sql: "CREATE INDEX IF NOT EXISTS idx_afiles_live_photo_video_id ON afiles(live_photo_video_id)",
                context: FailureContext::Fixed("Migration 9 failed adding live_photo_video_id index"),
            },
            MigrationOp::Execute {
                sql: FILENAME_NOCASE_INDEX,
                context: FailureContext::Fixed("Migration 9 failed adding case-insensitive index"),
            },
            MigrationOp::ExecuteBatch {
                sql: FOLDER_SCAN_STATE_SCHEMA,
                context: FailureContext::Fixed("Migration 9 failed creating folder scan state"),
            },
        ]
    } else if m.version == 11 {
        add_column("afiles", "culling_flag",
            "ALTER TABLE afiles ADD COLUMN culling_flag INTEGER NOT NULL DEFAULT 0",
            FailureContext::Fixed("Migration 11 failed adding culling_flag"))
        + seq![MigrationOp::Execute {
            sql: "CREATE INDEX IF NOT EXISTS idx_afiles_culling_flag ON afiles(culling_flag)",
            context: FailureContext::Fixed("Migration 11 failed adding culling_flag index"),
        }]
    } else if m.version == 12 {
        add_column("afolders", "has_subfolders",
            "ALTER TABLE afolders ADD COLUMN has_subfolders INTEGER",
            FailureContext::Fixed("Migration 12 failed adding has_subfolders"))
    } else if m.version == 13 {
        add_column("afolders", "inode", "ALTER TABLE afolders ADD COLUMN inode INTEGER",
            FailureContext::Fixed("Migration 13 failed adding inode"))
        + seq![MigrationOp::Execute {
            sql: "CREATE INDEX IF NOT EXISTS idx_afolders_album_inode ON afolders(album_id, inode)",
            context: FailureContext::Fixed("Migration 13 failed creating inode index"),
        }]
    } else if m.version == 14 {
        add_column("albums", "skipped_count",
            "ALTER TABLE albums ADD COLUMN skipped_count INTEGER NOT NULL DEFAULT 0",
            FailureContext::Fixed("Migration 14 failed adding skipped_count"))
        + add_column("albums", "skipped_size",
            "ALTER TABLE albums ADD COLUMN skipped_size INTEGER NOT NULL DEFAULT 0",
            FailureContext::Fixed("Migration 14 failed adding skipped_size"))
        + add_column("albums", "failed_count",
            "ALTER TABLE albums ADD COLUMN failed_count INTEGER NOT NULL DEFAULT 0",
            FailureContext::Fixed("Migration 14 failed adding failed_count"))
        + add_column("albums", "failed_size",
            "ALTER TABLE albums ADD COLUMN failed_size INTEGER NOT NULL DEFAULT 0",
            FailureContext::Fixed("Migration 14 failed adding failed_size"))
        + add_column("albums", "merged_count",
            "ALTER TABLE albums ADD COLUMN merged_count INTEGER NOT NULL DEFAULT 0",
            FailureContext::Fixed("Migration 14 failed adding merged_count"))
        + add_column("albums", "merged_size",
            "ALTER TABLE albums ADD COLUMN merged_size INTEGER NOT NULL DEFAULT 0",
            FailureContext::Fixed("Migration 14 failed adding merged_size"))
    } else if m.version == 15 {
        seq![
            MigrationOp::SkipIfColumnExists {
                table: "similarity_group_items",
                column: "is_keep",
                skip: 2,
            },
            MigrationOp::Execute {
                sql: "ALTER TABLE similarity_group_items ADD COLUMN is_keep INTEGER NOT NULL DEFAULT 0",
                context: FailureContext::Fixed("Migration 15 failed adding is_keep"),
            },
            MigrationOp::ExecuteBatch {
                sql: KEEP_STATE_BACKFILL,
                context: FailureContext::Fixed("Migration 15 failed initializing keep state"),
            },
        ]
    } else if m.version == 16 {
        add_column("afiles", "motion_photo_offset",
            "ALTER TABLE afiles ADD COLUMN motion_photo_offset INTEGER",
            FailureContext::Fixed("Migration 16 failed adding motion_photo_offset"))
    } else if m.version == 17 {
        tag_group_steps()
    } else if m.version == 18 {
        add_column("albums", "scan_cursor",
            "ALTER TABLE albums ADD COLUMN scan_cursor INTEGER NOT NULL DEFAULT 0",
            FailureContext::Fixed("Migration 18 failed adding scan_cursor"))
    } else if is_blank_text(m.sql@) {
        seq![]
    } else {
        seq![MigrationOp::ExecuteBatch { sql: m.sql, context: FailureContext::Migration(m.version) }]
    }
}


fn push_add_column(
    plan: &mut Vec<MigrationOp>,
    table: &'static str,
    column: &'static str,
    alter: &'static str,
    context: FailureContext,
)
    ensures
        final(plan)@ == old(plan)@ + add_column(table, column, alter, context),
{
    plan.push(MigrationOp::SkipIfColumnExists { table, column, skip: 1 });
    plan.push(MigrationOp::Execute { sql: alter, context });
    assert(plan@ =~= old(plan)@ + add_column(table, column, alter, context));
}

fn push_deduplicate_album_files(plan: &mut Vec<MigrationOp>)
    ensures
        final(plan)@ == old(plan)@ + deduplicate_album_files(),
{
    plan.push(
        MigrationOp::BeginTransaction {
            context: FailureContext::Fixed(
                "Migration 9 (deduplicate album files) failed starting transaction",
            ),
        },
    );
    plan.push(
        MigrationOp::ExecuteBatch {
            sql: DEDUPLICATE_ALBUM_FILES,
            context: FailureContext::Fixed("Migration 9 (deduplicate album files) failed"),
        },
    );
    plan.push(
        MigrationOp::Commit {
            context: FailureContext::Fixed(
                "Migration 9 (deduplicate album files) failed committing transaction",
            ),
        },
    );
    assert(plan@ =~= old(plan)@ + deduplicate_album_files());
}

fn push_tag_group_steps(plan: &mut Vec<MigrationOp>)
    ensures
        final(plan)@ == old(plan)@ + tag_group_steps(),
{
    plan.push(MigrationOp::BeginTransaction { context: FailureContext::Bare });
    plan.push(MigrationOp::ExecuteBatch { sql: TAG_GROUPS_SCHEMA, context: FailureContext::Bare });
    plan.push(MigrationOp::SkipIfColumnExists { table: "atags", column: "group_id", skip: 1 });
    plan.push(MigrationOp::ExecuteBatch { sql: TAG_GROUP_COLUMN, context: FailureContext::Bare });
    plan.push(MigrationOp::ExecuteBatch { sql: TAG_GROUP_TRIGGERS, context: FailureContext::Bare });
    plan.push(MigrationOp::Commit { context: FailureContext::Bare });
    assert(plan@ =~= old(plan)@ + tag_group_steps());
}

/// Appends the work of migration `m` to `plan`.
fn push_migration_steps(plan: &mut Vec<MigrationOp>, m: &Migration)
    ensures
        final(plan)@ == old(plan)@ + migration_steps(*m),
{
    let ghost start = plan@;
    if m.version == 2 {
        push_add_column(plan, "afiles", "format_label",
            "ALTER TABLE afiles ADD COLUMN format_label TEXT", FailureContext::Migration(2));
    } else if m.version == 3 {
        push_add_column(plan, "athumbs", "thumb_key",
            "ALTER TABLE athumbs ADD COLUMN thumb_key TEXT", FailureContext::Migration(3));
        push_add_column(plan, "athumbs", "thumb_mtime",
            "ALTER TABLE athumbs ADD COLUMN thumb_mtime INTEGER", FailureContext::Migration(3));
        push_add_column(plan, "athumbs", "thumb_size",
            "ALTER TABLE athumbs ADD COLUMN thumb_size INTEGER", FailureContext::Migration(3));
        push_add_column(plan, "athumbs", "updated_at",
            "ALTER TABLE athumbs ADD COLUMN updated_at INTEGER", FailureContext::Migration(3));
        plan.push(MigrationOp::Execute {
            sql: "CREATE INDEX IF NOT EXISTS idx_athumbs_thumb_key ON athumbs(thumb_key)",
            context: FailureContext::Migration(3),
        });
    } else if m.version == 4 {
        push_add_column(plan, "afiles", "last_scan_time",
            "ALTER TABLE afiles ADD COLUMN last_scan_time INTEGER DEFAULT 0",
            FailureContext::Fixed("Migration 4 failed adding last_scan_time"));
        push_add_column(plan, "albums", "last_scan_time",
            "ALTER TABLE albums ADD COLUMN last_scan_time INTEGER DEFAULT 0",
            FailureContext::Fixed("Migration 4 failed adding last_scan_time"));
        plan.push(MigrationOp::Execute {
            sql: "CREATE INDEX IF NOT EXISTS idx_afiles_last_scan_time ON afiles(last_scan_time)",
            context: FailureContext::Fixed("Migration 4 failed adding last_scan_time index"),
        });
    } else if m.version == 5 {
        push_add_column(plan, "afolders", "is_excluded_from_search",
            "ALTER TABLE afolders ADD COLUMN is_excluded_from_search INTEGER DEFAULT 0",
            FailureContext::Fixed("Migration 5 failed adding is_excluded_from_search"));
        push_add_column(plan, "afiles", "inode", "ALTER TABLE afiles ADD COLUMN inode INTEGER",
            FailureContext::Fixed("Migration 5 failed adding inode"));
        plan.push(MigrationOp::Execute {
            sql: "CREATE INDEX IF NOT EXISTS idx_afolders_is_excluded_from_search ON afolders(is_excluded_from_search)",
            context: FailureContext::Fixed("Migration 5 failed adding is_excluded_from_search index"),
        });
    } else if m.version == 9 {
        plan.push(MigrationOp::ExecuteBatch {
            sql: COLLECTIONS_SCHEMA,
            context: FailureContext::Fixed("Migration 9 failed creating collections"),
        });
        push_deduplicate_album_files(plan);
        push_add_column(plan, "afiles", "content_identifier",
            "ALTER TABLE afiles ADD COLUMN content_identifier TEXT",
            FailureContext::Fixed("Migration 9 failed adding content_identifier"));
        push_add_column(plan, "afiles", "media_subtype",
            "ALTER TABLE afiles ADD COLUMN media_subtype TEXT",
            FailureContext::Fixed("Migration 9 failed adding media_subtype"));
        push_add_column(plan, "afiles", "live_photo_video_id",
            "ALTER TABLE afiles ADD COLUMN live_photo_video_id INTEGER",
            FailureContext::Fixed("Migration 9 failed adding live_photo_video_id"));
        plan.push(MigrationOp::Execute {
            sql: "CREATE INDEX IF NOT EXISTS idx_afiles_content_identifier ON afiles(content_identifier)",
            context: FailureContext::Fixed("Migration 9 failed adding content_identifier index"),
        });
        plan.push(MigrationOp::Execute {
            sql: "CREATE INDEX IF NOT EXISTS idx_afiles_live_photo_video_id ON afiles(live_photo_video_id)",
            context: FailureContext::Fixed("Migration 9 failed adding live_photo_video_id index"),
        });
        plan.push(MigrationOp::Execute {
            sql: FILENAME_NOCASE_INDEX,
            context: FailureContext::Fixed("Migration 9 failed adding case-insensitive index"),
        });
        plan.push(MigrationOp::ExecuteBatch {
            sql: FOLDER_SCAN_STATE_SCHEMA,
            context: FailureContext::Fixed("Migration 9 failed creating folder scan state"),
        });
    } else if m.version == 11 {
        push_add_column(plan, "afiles", "culling_flag",
            "ALTER TABLE afiles ADD COLUMN culling_flag INTEGER NOT NULL DEFAULT 0",
            FailureContext::Fixed("Migration 11 failed adding culling_flag"));
        plan.push(MigrationOp::Execute {
            sql: "CREATE INDEX IF NOT EXISTS idx_afiles_culling_flag ON afiles(culling_flag)",
            context: FailureContext::Fixed("Migration 11 failed adding culling_flag index"),
        });
    } else if m.version == 12 {
        push_add_column(plan, "afolders", "has_subfolders",
            "ALTER TABLE afolders ADD COLUMN has_subfolders INTEGER",
            FailureContext::Fixed("Migration 12 failed adding has_subfolders"));
    } else if m.version == 13 {
        push_add_column(plan, "afolders", "inode", "ALTER TABLE afolders ADD COLUMN inode INTEGER",
            FailureContext::Fixed("Migration 13 failed adding inode"));
        plan.push(MigrationOp::Execute {
            sql: "CREATE INDEX IF NOT EXISTS idx_afolders_album_inode ON afolders(album_id, inode)",
            context: FailureContext::Fixed("Migration 13 failed creating inode index"),
        });
    } else if m.version == 14 {
        push_add_column(plan, "albums", "skipped_count",
            "ALTER TABLE albums ADD COLUMN skipped_count INTEGER NOT NULL DEFAULT 0",
            FailureContext::Fixed("Migration 14 failed adding skipped_count"));
        push_add_column(plan, "albums", "skipped_size",
            "ALTER TABLE albums ADD COLUMN skipped_size INTEGER NOT NULL DEFAULT 0",
            FailureContext::Fixed("Migration 14 failed adding skipped_size"));
        push_add_column(plan, "albums", "failed_count",
            "ALTER TABLE albums ADD COLUMN failed_count INTEGER NOT NULL DEFAULT 0",
            FailureContext::Fixed("Migration 14 failed adding failed_count"));
        push_add_column(plan, "albums", "failed_size",
            "ALTER TABLE albums ADD COLUMN failed_size INTEGER NOT NULL DEFAULT 0",
            FailureContext::Fixed("Migration 14 failed adding failed_size"));
        push_add_column(plan, "albums", "merged_count",
            "ALTER TABLE albums ADD COLUMN merged_count INTEGER NOT NULL DEFAULT 0",
            FailureContext::Fixed("Migration 14 failed adding merged_count"));
        push_add_column(plan, "albums", "merged_size",
            "ALTER TABLE albums ADD COLUMN merged_size INTEGER NOT NULL DEFAULT 0",
            FailureContext::Fixed("Migration 14 failed adding merged_size"));
    } else if m.version == 15 {
        plan.push(MigrationOp::SkipIfColumnExists {
            table: "similarity_group_items",
            column: "is_keep",
            skip: 2,
        });
        plan.push(MigrationOp::Execute {
            sql: "ALTER TABLE similarity_group_items ADD COLUMN is_keep INTEGER NOT NULL DEFAULT 0",
            context: FailureContext::Fixed("Migration 15 failed adding is_keep"),
        });
        plan.push(MigrationOp::ExecuteBatch {
            sql: KEEP_STATE_BACKFILL,
            context: FailureContext::Fixed("Migration 15 failed initializing keep state"),
        });
    } else if m.version == 16 {
        push_add_column(plan, "afiles", "motion_photo_offset",
            "ALTER TABLE afiles ADD COLUMN motion_photo_offset INTEGER",
            FailureContext::Fixed("Migration 16 failed adding motion_photo_offset"));
    } else if m.version == 17 {
        push_tag_group_steps(plan);
    } else if m.version == 18 {
        push_add_column(plan, "albums", "scan_cursor",
            "ALTER TABLE albums ADD COLUMN scan_cursor INTEGER NOT NULL DEFAULT 0",
            FailureContext::Fixed("Migration 18 failed adding scan_cursor"));
    } else if !is_blank(m.sql) {
        plan.push(MigrationOp::ExecuteBatch { sql: m.sql, context: FailureContext::Migration(m.version) });
    }
    assert(plan@ =~= start + migration_steps(*m));
}


/// The steps for the migrations of `ms` whose version is above `current`,
/// in order: for each, its progress line and then its work.
pub open spec fn pending_steps(ms: Seq<Migration>, current: i32) -> Seq<MigrationOp>
    decreases ms.len(),
{
    if ms.len() == 0 {
        seq![]
    } else {
        let m = ms.last();
        pending_steps(ms.drop_last(), current) + if m.version > current {
            seq![MigrationOp::Log(Notice::Applying { version: m.version, description: m.description })]
                + migration_steps(m)
        } else {
            seq![]
        }
    }
}

/// The version stored after migrating from `current` with the migrations `ms`:
/// the last one above `current`, or `current` when there is none.
pub open spec fn target_version(ms: Seq<Migration>, current: i32) -> i32
    decreases ms.len(),
{
    if ms.len() == 0 {
        current
    } else if ms.last().version > current {
        ms.last().version
    } else {
        target_version(ms.drop_last(), current)
    }
}

/// Everything `check_and_migrate` does once it has read the stored version
/// `current`: report it, apply every migration above it in table order, then
/// store the new version (only when it changed) and report the result.
pub open spec fn migration_plan(current: i32) -> Seq<MigrationOp> {
    let target = target_version(migration_table(), current);
    seq![MigrationOp::Log(Notice::CurrentVersion(current))] + pending_steps(
        migration_table(),
        current,
    ) + if target > current {
        seq![
            MigrationOp::SetUserVersion { version: target },
            MigrationOp::Log(Notice::Migrated(target)),
        ]
    } else {
        seq![MigrationOp::Log(Notice::UpToDate)]
    }
}

/// Builds the migration plan for a database at version `current`.
pub fn migration_plan_for(current: i32) -> (plan: Vec<MigrationOp>)
    ensures
        plan@ == migration_plan(current),
{
    let migrations = get_migrations();
    let mut plan: Vec<MigrationOp> = Vec::new();
    plan.push(MigrationOp::Log(Notice::CurrentVersion(current)));
    let mut target = current;
    let mut i: usize = 0;
    while i < migrations.len()
        invariant
            migrations@ == migration_table(),
            i <= migrations@.len(),
            plan@ == seq![MigrationOp::Log(Notice::CurrentVersion(current))] + pending_steps(
                migration_table().take(i as int),
                current,
            ),
            target == target_version(migration_table().take(i as int), current),
        decreases migrations@.len() - i,
    {
        let m = &migrations[i];
        assert(migration_table().take(i + 1).drop_last() =~= migration_table().take(i as int));
        assert(migration_table().take(i + 1).last() == migration_table()[i as int]);
        if m.version > current {
            let ghost before = plan@;
            plan.push(
                MigrationOp::Log(Notice::Applying { version: m.version, description: m.description }),
            );
            push_migration_steps(&mut plan, m);
            assert(plan@ =~= before + (seq![MigrationOp::Log(Notice::Applying { version: m.version, description: m.description })] + migration_steps(*m)));
            target = m.version;
        }
        i += 1;
    }
    assert(migration_table().take(migrations@.len() as int) =~= migration_table());
    if target > current {
        plan.push(MigrationOp::SetUserVersion { version: target });
        plan.push(MigrationOp::Log(Notice::Migrated(target)));
    } else {
        plan.push(MigrationOp::Log(Notice::UpToDate));
    }
    assert(plan@ =~= migration_plan(current));
    plan
}


/// What the caller is asked to do next.
pub enum DbAction {
    /// Read `PRAGMA user_version;` and reply with `DbReply::UserVersion`.
    ReadUserVersion,
    /// Print the line, then reply `DbReply::Done`.
    Print(String),
    /// Run the `PRAGMA table_info(..)` query and reply `DbReply::HasColumn(found)`,
    /// where `found` tells whether some row's name (its second column) matches
    /// `column` by [`column_name_matches`].
    HasColumn { pragma: String, column: String },
    /// Run the statement with `Connection::execute`, then reply `DbReply::Done`.
    Execute(String),
    /// Run the statements with `Connection::execute_batch`, then reply `DbReply::Done`.
    ExecuteBatch(String),
    /// Open a transaction with `Connection::unchecked_transaction`, then reply `DbReply::Done`.
    BeginTransaction,
    /// Commit the open transaction, then reply `DbReply::Done`.
    Commit,
    /// The migration is over, with this result; an open transaction is dropped (rolled back).
    Finish(Result<(), String>),
}

/// The caller's report on a successful action; a failed one is reported as the error's text.
pub enum DbReply {
    UserVersion(i32),
    HasColumn(bool),
    Done,
}

/// `action` asks the caller to perform `op`.
pub open spec fn requests(action: DbAction, op: MigrationOp) -> bool {
    match op {
        MigrationOp::Log(notice) => action matches DbAction::Print(line) && line@ == notice_text(
            notice,
        ),
        MigrationOp::SkipIfColumnExists { table, column, .. } => action matches DbAction::HasColumn {
            pragma,
            column: wanted,
        } && pragma@ == "PRAGMA table_info("@ + table@ + ")"@ && wanted@ == column@,
        MigrationOp::Execute { sql, .. } => action matches DbAction::Execute(text) && text@ == sql@,
        MigrationOp::ExecuteBatch { sql, .. } => action matches DbAction::ExecuteBatch(text)
            && text@ == sql@,
        MigrationOp::BeginTransaction { .. } => action is BeginTransaction,
        MigrationOp::Commit { .. } => action is Commit,
        MigrationOp::SetUserVersion { version } => action matches DbAction::ExecuteBatch(text)
            && text@ == "PRAGMA user_version = "@ + decimal_text(version as int) + ";"@,
    }
}

/// The message reported when `op` fails with `cause`.
pub open spec fn op_failure_text(op: MigrationOp, cause: Seq<char>) -> Seq<char> {
    match op {
        MigrationOp::Execute { context, .. } => failure_text(context, cause),
        MigrationOp::ExecuteBatch { context, .. } => failure_text(context, cause),
        MigrationOp::BeginTransaction { context } => failure_text(context, cause),
        MigrationOp::Commit { context } => failure_text(context, cause),
        MigrationOp::SetUserVersion { .. } => "Failed to update user_version: "@ + cause,
        _ => cause,
    }
}

/// The kind of reply that `op` gets when it succeeds.
pub open spec fn reply_fits(op: MigrationOp, reply: DbReply) -> bool {
    match op {
        MigrationOp::SkipIfColumnExists { .. } => reply is HasColumn,
        _ => reply is Done,
    }
}

/// How many further steps are passed over after `op` succeeded with `reply`.
pub open spec fn skipped_after(op: MigrationOp, reply: DbReply) -> int {
    match op {
        MigrationOp::SkipIfColumnExists { skip, .. } => if reply == DbReply::HasColumn(true) {
            skip as int
        } else {
            0
        },
        _ => 0,
    }
}

/// The stage of a migration run.
#[derive(Clone, Copy)]
pub enum RunStage {
    /// Waiting for the stored schema version.
    ReadingVersion,
    /// Performing the steps of the plan.
    Applying,
    /// Over: nothing more is asked.
    Finished,
}

/// A migration run in progress.
pub struct MigrationRun {
    stage: RunStage,
    plan: Vec<MigrationOp>,
    pc: usize,
}

impl MigrationRun {
    /// The stage of the run.
    pub closed spec fn stage(&self) -> RunStage {
        self.stage
    }

    /// The plan being performed (empty before the version is known).
    pub closed spec fn plan(&self) -> Seq<MigrationOp> {
        self.plan@
    }

    /// The index of the step whose outcome is awaited.
    pub closed spec fn pc(&self) -> int {
        self.pc as int
    }

    /// Whether `reply` can answer the action the run is waiting on.
    pub open spec fn accepts(&self, reply: Result<DbReply, String>) -> bool {
        match self.stage() {
            RunStage::ReadingVersion => match reply {
                Err(_) => true,
                Ok(r) => r is UserVersion,
            },
            RunStage::Applying => 0 <= self.pc() < self.plan().len() && match reply {
                Err(_) => true,
                Ok(r) => reply_fits(self.plan()[self.pc()], r),
            },
            RunStage::Finished => false,
        }
    }

    /// Decides `accepts`.
    pub fn accepts_reply(&self, reply: &Result<DbReply, String>) -> (fits: bool)
        ensures
            fits == self.accepts(*reply),
    {
        match self.stage {
            RunStage::ReadingVersion => match reply {
                Err(_) => true,
                Ok(DbReply::UserVersion(_)) => true,
                Ok(_) => false,
            },
            RunStage::Applying => {
                if self.pc >= self.plan.len() {
                    return false;
                }
                match reply {
                    Err(_) => true,
                    Ok(r) => match (&self.plan[self.pc], r) {
                        (MigrationOp::SkipIfColumnExists { .. }, DbReply::HasColumn(_)) => true,
                        (MigrationOp::SkipIfColumnExists { .. }, _) => false,
                        (_, DbReply::Done) => true,
                        (_, _) => false,
                    },
                }
            },
            RunStage::Finished => false,
        }
    }

    /// Whether the run is over.
    pub fn is_finished(&self) -> (finished: bool)
        ensures
            finished == (self.stage() is Finished),
    {
        match self.stage {
            RunStage::Finished => true,
            _ => false,
        }
    }
}

/// The run continues with step `pc` of `plan`, and `action` asks for it.
pub open spec fn continues_at(
    after: MigrationRun,
    action: DbAction,
    plan: Seq<MigrationOp>,
    pc: int,
) -> bool {
    &&& after.stage() is Applying
    &&& after.plan() == plan
    &&& after.pc() == pc
    &&& 0 <= pc < plan.len()
    &&& requests(action, plan[pc])
}

/// The run is over and `action` reports `outcome`.
pub open spec fn finishes_with(after: MigrationRun, action: DbAction, outcome: Result<(), Seq<char>>) -> bool {
    &&& after.stage() is Finished
    &&& match action {
        DbAction::Finish(Ok(())) => outcome == Ok::<(), Seq<char>>(()),
        DbAction::Finish(Err(m)) => outcome == Err::<(), Seq<char>>(m@),
        _ => false,
    }
}

/// One step of the run: what the run becomes and asks for after `reply`.
///
/// The stored version starts the plan of that version (a failed read ends the
/// run with its error). Each failed step ends the run with the step's message;
/// each successful one moves on to the next step not passed over, and the run
/// ends successfully after the last step.
pub open spec fn step_taken(
    before: MigrationRun,
    reply: Result<DbReply, String>,
    after: MigrationRun,
    action: DbAction,
) -> bool {
    match before.stage() {
        RunStage::ReadingVersion => match reply {
            Err(e) => finishes_with(after, action, Err(e@)),
            Ok(DbReply::UserVersion(current)) => continues_at(after, action, migration_plan(current), 0),
            Ok(_) => false,
        },
        RunStage::Applying => {
            let op = before.plan()[before.pc()];
            match reply {
                Err(e) => finishes_with(after, action, Err(op_failure_text(op, e@))),
                Ok(r) => {
                    let next = before.pc() + 1 + skipped_after(op, r);
                    if next < before.plan().len() {
                        continues_at(after, action, before.plan(), next)
                    } else {
                        finishes_with(after, action, Ok(()))
                    }
                },
            }
        },
        RunStage::Finished => false,
    }
}

/// `"<literal><text>"`.
fn join(prefix: &str, text: &str) -> (joined: String)
    ensures
        joined@ == prefix@ + text@,
{
    let mut joined = String::from_str(prefix);
    joined.append(text);
    joined
}

/// The query that lists the columns of `table`.
pub fn table_info_pragma(table: &str) -> (pragma: String)
    ensures
        pragma@ == "PRAGMA table_info("@ + table@ + ")"@,
{
    let mut pragma = join("PRAGMA table_info(", table);
    pragma.append(")");
    pragma
}

/// Whether a column name listed by `PRAGMA table_info` is `column`, compared
/// as `str::eq_ignore_ascii_case` does.
pub fn column_name_matches(name: &str, column: &str) -> (matches: bool)
    ensures
        matches == eq_ignore_ascii_case(name.spec_bytes(), column.spec_bytes()),
{
    crate::text::bytes_eq_ignore_ascii_case(name.as_bytes(), column.as_bytes())
}

fn notice_line(notice: &Notice) -> (line: String)
    ensures
        line@ == notice_text(*notice),
{
    match notice {
        Notice::CurrentVersion(v) => join("Current DB version: ", decimal(*v).as_str()),
        Notice::Applying { version, description } => {
            let mut line = join("Applying migration ", decimal(*version).as_str());
            line.append(": ");
            line.append(description);
            line
        },
        Notice::Migrated(v) => join(
            "Database successfully migrated to version ",
            decimal(*v).as_str(),
        ),
        Notice::UpToDate => String::from_str("Database is up to date."),
    }
}

fn failure_message(context: &FailureContext, cause: String) -> (message: String)
    ensures
        message@ == failure_text(*context, cause@),
{
    match context {
        FailureContext::Bare => cause,
        FailureContext::Fixed(prefix) => {
            let mut message = join(prefix, ": ");
            message.append(cause.as_str());
            message
        },
        FailureContext::Migration(version) => {
            let mut message = join("Migration ", decimal(*version).as_str());
            message.append(" failed: ");
            message.append(cause.as_str());
            message
        },
    }
}

fn op_failure_message(op: &MigrationOp, cause: String) -> (message: String)
    ensures
        message@ == op_failure_text(*op, cause@),
{
    match op {
        MigrationOp::Execute { context, .. } => failure_message(context, cause),
        MigrationOp::ExecuteBatch { context, .. } => failure_message(context, cause),
        MigrationOp::BeginTransaction { context } => failure_message(context, cause),
        MigrationOp::Commit { context } => failure_message(context, cause),
        MigrationOp::SetUserVersion { .. } => join("Failed to update user_version: ", cause.as_str()),
        _ => cause,
    }
}

fn request_for(op: &MigrationOp) -> (action: DbAction)
    ensures
        requests(action, *op),
{
    match op {
        MigrationOp::Log(notice) => DbAction::Print(notice_line(notice)),
        MigrationOp::SkipIfColumnExists { table, column, .. } => DbAction::HasColumn {
            pragma: table_info_pragma(table),
            column: String::from_str(column),
        },
        MigrationOp::Execute { sql, .. } => DbAction::Execute(String::from_str(sql)),
        MigrationOp::ExecuteBatch { sql, .. } => DbAction::ExecuteBatch(String::from_str(sql)),
        MigrationOp::BeginTransaction { .. } => DbAction::BeginTransaction,
        MigrationOp::Commit { .. } => DbAction::Commit,
        MigrationOp::SetUserVersion { version } => {
            let mut statement = join("PRAGMA user_version = ", decimal(*version).as_str());
            statement.append(";");
            DbAction::ExecuteBatch(statement)
        },
    }
}

/// Starts a migration run: the first action reads the stored schema version.
pub fn begin_check_and_migrate() -> (started: (MigrationRun, DbAction))
    ensures
        started.0.stage() is ReadingVersion,
        started.1 is ReadUserVersion,
{
    (MigrationRun { stage: RunStage::ReadingVersion, plan: Vec::new(), pc: 0 }, DbAction::ReadUserVersion)
}

/// Advances a migration run with the caller's report on the last action and
/// returns the next action.
pub fn check_and_migrate(run: &mut MigrationRun, reply: Result<DbReply, String>) -> (action: DbAction)
    requires
        old(run).accepts(reply),
    ensures
        step_taken(*old(run), reply, *final(run), action),
{
    match run.stage {
        RunStage::ReadingVersion => match reply {
            Err(e) => {
                run.stage = RunStage::Finished;
                DbAction::Finish(Err(e))
            },
            Ok(DbReply::UserVersion(current)) => {
                run.plan = migration_plan_for(current);
                run.pc = 0;
                run.stage = RunStage::Applying;
                request_for(&run.plan[0])
            },
            Ok(_) => {
                run.stage = RunStage::Finished;
                DbAction::Finish(Ok(()))
            },
        },
        RunStage::Applying => {
            let op = run.plan[run.pc];
            match reply {
                Err(e) => {
                    run.stage = RunStage::Finished;
                    DbAction::Finish(Err(op_failure_message(&op, e)))
                },
                Ok(r) => {
                    let skip: usize = match (op, r) {
                        (MigrationOp::SkipIfColumnExists { skip, .. }, DbReply::HasColumn(true)) => skip,
                        (_, _) => 0,
                    };
                    let remaining: usize = run.plan.len() - run.pc - 1;
                    if skip >= remaining {
                        run.stage = RunStage::Finished;
                        DbAction::Finish(Ok(()))
                    } else {
                        run.pc = run.pc + 1 + skip;
                        request_for(&run.plan[run.pc])
                    }
                },
            }
        },
        RunStage::Finished => DbAction::Finish(Ok(())),
    }
}


/// Migrations at or below the stored version contribute nothing, and leave
/// the version as it is.
pub proof fn lemma_nothing_pending(ms: Seq<Migration>, current: i32)
    requires
        forall|i: int| 0 <= i < ms.len() ==> #[trigger] ms[i].version <= current,
    ensures
        pending_steps(ms, current) == Seq::<MigrationOp>::empty(),
        target_version(ms, current) == current,
    decreases ms.len(),
{
    if ms.len() > 0 {
        assert forall|i: int| 0 <= i < ms.drop_last().len() implies #[trigger] ms.drop_last()[i].version
            <= current by {
            assert(ms.drop_last()[i] == ms[i]);
        }
        lemma_nothing_pending(ms.drop_last(), current);
        assert(ms.last() == ms[ms.len() - 1]);
        assert(pending_steps(ms, current) =~= Seq::<MigrationOp>::empty());
    }
}

/// A database at or above the newest version is left alone: the run reports
/// the version, changes nothing, does not store the version, and reports that
/// the database is up to date.
pub proof fn lemma_up_to_date_database_untouched(current: i32)
    requires
        current >= migration_table().last().version,
    ensures
        migration_plan(current) == seq![
            MigrationOp::Log(Notice::CurrentVersion(current)),
            MigrationOp::Log(Notice::UpToDate),
        ],
{
    lemma_versions_strictly_increase();
    let ms = migration_table();
    assert forall|i: int| 0 <= i < ms.len() implies #[trigger] ms[i].version <= current by {
        if i < ms.len() - 1 {
            assert(ms[i].version < ms[ms.len() - 1].version);
        }
    }
    lemma_nothing_pending(ms, current);
    assert(migration_plan(current) =~= seq![
        MigrationOp::Log(Notice::CurrentVersion(current)),
        MigrationOp::Log(Notice::UpToDate),
    ]);
}

/// A database below the newest version ends at the newest version: the plan
/// stores it and reports it as its last two steps.
pub proof fn lemma_outdated_database_reaches_latest(current: i32)
    requires
        current < migration_table().last().version,
    ensures
        target_version(migration_table(), current) == migration_table().last().version,
        migration_plan(current).len() >= 2,
        migration_plan(current)[migration_plan(current).len() - 2] == (MigrationOp::SetUserVersion {
            version: migration_table().last().version,
        }),
        migration_plan(current).last() == MigrationOp::Log(
            Notice::Migrated(migration_table().last().version),
        ),
{
    lemma_versions_strictly_increase();
}

/// Migrating again from the version a plan stores does nothing more.
pub proof fn lemma_migration_is_settled(current: i32)
    ensures
        target_version(migration_table(), current) >= current,
        migration_plan(target_version(migration_table(), current)) == seq![
            MigrationOp::Log(Notice::CurrentVersion(target_version(migration_table(), current))),
            MigrationOp::Log(Notice::UpToDate),
        ],
{
    lemma_versions_strictly_increase();
    if current < migration_table().last().version {
        lemma_outdated_database_reaches_latest(current);
    } else {
        lemma_up_to_date_database_untouched(current);
        let ms = migration_table();
        assert forall|i: int| 0 <= i < ms.len() implies #[trigger] ms[i].version <= current by {
            if i < ms.len() - 1 {
                assert(ms[i].version < ms[ms.len() - 1].version);
            }
        }
        lemma_nothing_pending(ms, current);
    }
    lemma_up_to_date_database_untouched(target_version(migration_table(), current));
}

/// Both schema batches of the table hold statements: neither is blank, so
/// migrations 1 and 10 run their batch.
pub proof fn lemma_schema_batches_are_not_blank()
    ensures
        !is_blank_text(DEDUPLICATION_SCHEMA@),
        !is_blank_text(SIMILARITY_SCHEMA@),
{
    assert(DEDUPLICATION_SCHEMA@ == "
                CREATE TABLE IF NOT EXISTS file_hashes (
                    file_id INTEGER PRIMARY KEY,
                    hash TEXT NOT NULL,
                    file_size INTEGER NOT NULL,
                    mtime INTEGER NOT NULL,
                    computed_at INTEGER NOT NULL,
                    FOREIGN KEY (file_id) REFERENCES afiles(id) ON DELETE CASCADE
                );
                CREATE INDEX IF NOT EXISTS idx_file_hashes_hash_size ON file_hashes(hash, file_size);
                CREATE INDEX IF NOT EXISTS idx_file_hashes_mtime ON file_hashes(mtime);

                CREATE TABLE IF NOT EXISTS duplicate_groups (
                    id INTEGER PRIMARY KEY AUTOINCREMENT,
                    hash TEXT NOT NULL,
                    file_size INTEGER NOT NULL,
                    file_count INTEGER NOT NULL,
                    total_size INTEGER NOT NULL,
                    reviewed INTEGER NOT NULL DEFAULT 0,
                    updated_at INTEGER NOT NULL
                );
                CREATE UNIQUE INDEX IF NOT EXISTS uidx_duplicate_groups_hash_size ON duplicate_groups(hash, file_size);

                CREATE TABLE IF NOT EXISTS duplicate_group_items (
                    group_id INTEGER NOT NULL,
                    file_id INTEGER NOT NULL,
                    is_keep INTEGER NOT NULL DEFAULT 0,
                    is_selected INTEGER NOT NULL DEFAULT 0,
                    score REAL NOT NULL DEFAULT 0,
                    PRIMARY KEY (group_id, file_id),
                    FOREIGN KEY (group_id) REFERENCES duplicate_groups(id) ON DELETE CASCADE,
                    FOREIGN KEY (file_id) REFERENCES afiles(id) ON DELETE CASCADE
                );
                CREATE INDEX IF NOT EXISTS idx_dup_items_group ON duplicate_group_items(group_id);
                CREATE INDEX IF NOT EXISTS idx_dup_items_file ON duplicate_group_items(file_id);
            "@);
    reveal_strlit("
                CREATE TABLE IF NOT EXISTS file_hashes (
                    file_id INTEGER PRIMARY KEY,
                    hash TEXT NOT NULL,
                    file_size INTEGER NOT NULL,
                    mtime INTEGER NOT NULL,
                    computed_at INTEGER NOT NULL,
                    FOREIGN KEY (file_id) REFERENCES afiles(id) ON DELETE CASCADE
                );
                CREATE INDEX IF NOT EXISTS idx_file_hashes_hash_size ON file_hashes(hash, file_size);
                CREATE INDEX IF NOT EXISTS idx_file_hashes_mtime ON file_hashes(mtime);

                CREATE TABLE IF NOT EXISTS duplicate_groups (
                    id INTEGER PRIMARY KEY AUTOINCREMENT,
                    hash TEXT NOT NULL,
                    file_size INTEGER NOT NULL,
                    file_count INTEGER NOT NULL,
                    total_size INTEGER NOT NULL,
                    reviewed INTEGER NOT NULL DEFAULT 0,
                    updated_at INTEGER NOT NULL
                );
                CREATE UNIQUE INDEX IF NOT EXISTS uidx_duplicate_groups_hash_size ON duplicate_groups(hash, file_size);

                CREATE TABLE IF NOT EXISTS duplicate_group_items (
                    group_id INTEGER NOT NULL,
                    file_id INTEGER NOT NULL,
                    is_keep INTEGER NOT NULL DEFAULT 0,
                    is_selected INTEGER NOT NULL DEFAULT 0,
                    score REAL NOT NULL DEFAULT 0,
                    PRIMARY KEY (group_id, file_id),
                    FOREIGN KEY (group_id) REFERENCES duplicate_groups(id) ON DELETE CASCADE,
                    FOREIGN KEY (file_id) REFERENCES afiles(id) ON DELETE CASCADE
                );
                CREATE INDEX IF NOT EXISTS idx_dup_items_group ON duplicate_group_items(group_id);
                CREATE INDEX IF NOT EXISTS idx_dup_items_file ON duplicate_group_items(file_id);
            ");
    assert(!crate::text::is_white_space(DEDUPLICATION_SCHEMA@[17]));
    assert(SIMILARITY_SCHEMA@ == "
                CREATE TABLE IF NOT EXISTS similarity_scans (
                    id INTEGER PRIMARY KEY AUTOINCREMENT,
                    scope_key TEXT NOT NULL UNIQUE,
                    source_version INTEGER NOT NULL,
                    status TEXT NOT NULL,
                    file_count INTEGER NOT NULL DEFAULT 0,
                    group_count INTEGER NOT NULL DEFAULT 0,
                    created_at INTEGER NOT NULL,
                    completed_at INTEGER
                );
                CREATE TABLE IF NOT EXISTS similarity_groups (
                    id INTEGER PRIMARY KEY AUTOINCREMENT,
                    scan_id INTEGER NOT NULL,
                    representative_file_id INTEGER NOT NULL,
                    file_count INTEGER NOT NULL,
                    latest_taken_date INTEGER NOT NULL DEFAULT 0,
                    min_score REAL NOT NULL DEFAULT 0,
                    max_score REAL NOT NULL DEFAULT 0,
                    FOREIGN KEY (scan_id) REFERENCES similarity_scans(id) ON DELETE CASCADE
                );
                CREATE INDEX IF NOT EXISTS idx_similarity_groups_scan ON similarity_groups(scan_id);
                CREATE TABLE IF NOT EXISTS similarity_group_items (
                    group_id INTEGER NOT NULL,
                    file_id INTEGER NOT NULL,
                    score REAL NOT NULL,
                    is_keep INTEGER NOT NULL DEFAULT 0,
                    PRIMARY KEY (group_id, file_id),
                    FOREIGN KEY (group_id) REFERENCES similarity_groups(id) ON DELETE CASCADE,
                    FOREIGN KEY (file_id) REFERENCES afiles(id) ON DELETE CASCADE
                );
                CREATE INDEX IF NOT EXISTS idx_similarity_items_group ON similarity_group_items(group_id);
                CREATE INDEX IF NOT EXISTS idx_similarity_items_file ON similarity_group_items(file_id);
            "@);
    reveal_strlit("
                CREATE TABLE IF NOT EXISTS similarity_scans (
                    id INTEGER PRIMARY KEY AUTOINCREMENT,
                    scope_key TEXT NOT NULL UNIQUE,
                    source_version INTEGER NOT NULL,
                    status TEXT NOT NULL,
                    file_count INTEGER NOT NULL DEFAULT 0,
                    group_count INTEGER NOT NULL DEFAULT 0,
                    created_at INTEGER NOT NULL,
                    completed_at INTEGER
                );
                CREATE TABLE IF NOT EXISTS similarity_groups (
                    id INTEGER PRIMARY KEY AUTOINCREMENT,
                    scan_id INTEGER NOT NULL,
                    representative_file_id INTEGER NOT NULL,
                    file_count INTEGER NOT NULL,
                    latest_taken_date INTEGER NOT NULL DEFAULT 0,
                    min_score REAL NOT NULL DEFAULT 0,
                    max_score REAL NOT NULL DEFAULT 0,
                    FOREIGN KEY (scan_id) REFERENCES similarity_scans(id) ON DELETE CASCADE
                );
                CREATE INDEX IF NOT EXISTS idx_similarity_groups_scan ON similarity_groups(scan_id);
                CREATE TABLE IF NOT EXISTS similarity_group_items (
                    group_id INTEGER NOT NULL,
                    file_id INTEGER NOT NULL,
                    score REAL NOT NULL,
                    is_keep INTEGER NOT NULL DEFAULT 0,
                    PRIMARY KEY (group_id, file_id),
                    FOREIGN KEY (group_id) REFERENCES similarity_groups(id) ON DELETE CASCADE,
                    FOREIGN KEY (file_id) REFERENCES afiles(id) ON DELETE CASCADE
                );
                CREATE INDEX IF NOT EXISTS idx_similarity_items_group ON similarity_group_items(group_id);
                CREATE INDEX IF NOT EXISTS idx_similarity_items_file ON similarity_group_items(file_id);
            ");
    assert(!crate::text::is_white_space(SIMILARITY_SCHEMA@[17]));
}


/// The migration table holds, in this order, these fifteen entries.
pub proof fn lemma_migration_table_entries()
    ensures
        migration_table().len() == 15,
        migration_table()[0] == (Migration { version: 1, description: "Create deduplication tables", sql: DEDUPLICATION_SCHEMA }),
        migration_table()[1] == (Migration { version: 2, description: "Add afiles.format_label column", sql: "" }),
        migration_table()[2] == (Migration { version: 3, description: "Add thumbnail cache metadata columns", sql: "" }),
        migration_table()[3] == (Migration { version: 4, description: "Add last_scan_time for file and album sync", sql: "" }),
        migration_table()[4] == (Migration { version: 5, description: "Post v0.2.2 schema updates", sql: "" }),
        migration_table()[5] == (Migration { version: 9, description: "Post v0.2.4 schema updates", sql: "" }),
        migration_table()[6] == (Migration { version: 10, description: "Create visual similarity review tables", sql: SIMILARITY_SCHEMA }),
        migration_table()[7] == (Migration { version: 11, description: "Add file culling status", sql: "" }),
        migration_table()[8] == (Migration { version: 12, description: "Cache direct subfolder state on folders", sql: "" }),
        migration_table()[9] == (Migration { version: 13, description: "Persist folder filesystem identity", sql: "" }),
        migration_table()[10] == (Migration { version: 14, description: "Store scan totals", sql: "" }),
        migration_table()[11] == (Migration { version: 15, description: "Persist visual similarity keep state", sql: "" }),
        migration_table()[12] == (Migration { version: 16, description: "Add motion photo offset", sql: "" }),
        migration_table()[13] == (Migration { version: 17, description: "Add tag groups and persistent ordering", sql: "" }),
        migration_table()[14] == (Migration { version: 18, description: "Add albums.scan_cursor for resumable scans", sql: "" }),
{
}

/// What each migration of the table does: its column additions (a column
/// check, then the `ALTER TABLE` when the column is missing) and statements,
/// in order.
#[verifier::rlimit(50)]
pub proof fn lemma_migration_steps_of_each_version()
    ensures
        migration_steps(migration_table()[0]) == (seq![
            MigrationOp::ExecuteBatch { sql: DEDUPLICATION_SCHEMA, context: FailureContext::Migration(1) },
        ]),
        migration_steps(migration_table()[1]) == (seq![
            MigrationOp::SkipIfColumnExists { table: "afiles", column: "format_label", skip: 1 },
            MigrationOp::Execute { sql: "ALTER TABLE afiles ADD COLUMN format_label TEXT", context: FailureContext::Migration(2) },
        ]),
        migration_steps(migration_table()[2]) == (seq![
            MigrationOp::SkipIfColumnExists { table: "athumbs", column: "thumb_key", skip: 1 },
            MigrationOp::Execute { sql: "ALTER TABLE athumbs ADD COLUMN thumb_key TEXT", context: FailureContext::Migration(3) },
            MigrationOp::SkipIfColumnExists { table: "athumbs", column: "thumb_mtime", skip: 1 },
            MigrationOp::Execute { sql: "ALTER TABLE athumbs ADD COLUMN thumb_mtime INTEGER", context: FailureContext::Migration(3) },
            MigrationOp::SkipIfColumnExists { table: "athumbs", column: "thumb_size", skip: 1 },
            MigrationOp::Execute { sql: "ALTER TABLE athumbs ADD COLUMN thumb_size INTEGER", context: FailureContext::Migration(3) },
            MigrationOp::SkipIfColumnExists { table: "athumbs", column: "updated_at", skip: 1 },
            MigrationOp::Execute { sql: "ALTER TABLE athumbs ADD COLUMN updated_at INTEGER", context: FailureContext::Migration(3) },
            MigrationOp::Execute { sql: "CREATE INDEX IF NOT EXISTS idx_athumbs_thumb_key ON athumbs(thumb_key)", context: FailureContext::Migration(3) },
        ]),
        migration_steps(migration_table()[3]) == (seq![
            MigrationOp::SkipIfColumnExists { table: "afiles", column: "last_scan_time", skip: 1 },
            MigrationOp::Execute { sql: "ALTER TABLE afiles ADD COLUMN last_scan_time INTEGER DEFAULT 0", context: FailureContext::Fixed("Migration 4 failed adding last_scan_time") },
            MigrationOp::SkipIfColumnExists { table: "albums", column: "last_scan_time", skip: 1 },
            MigrationOp::Execute { sql: "ALTER TABLE albums ADD COLUMN last_scan_time INTEGER DEFAULT 0", context: FailureContext::Fixed("Migration 4 failed adding last_scan_time") },
            MigrationOp::Execute { sql: "CREATE INDEX IF NOT EXISTS idx_afiles_last_scan_time ON afiles(last_scan_time)", context: FailureContext::Fixed("Migration 4 failed adding last_scan_time index") },
        ]),
        migration_steps(migration_table()[4]) == (seq![
            MigrationOp::SkipIfColumnExists { table: "afolders", column: "is_excluded_from_search", skip: 1 },
            MigrationOp::Execute { sql: "ALTER TABLE afolders ADD COLUMN is_excluded_from_search INTEGER DEFAULT 0", context: FailureContext::Fixed("Migration 5 failed adding is_excluded_from_search") },
            MigrationOp::SkipIfColumnExists { table: "afiles", column: "inode", skip: 1 },
            MigrationOp::Execute { sql: "ALTER TABLE afiles ADD COLUMN inode INTEGER", context: FailureContext::Fixed("Migration 5 failed adding inode") },
            MigrationOp::Execute { sql: "CREATE INDEX IF NOT EXISTS idx_afolders_is_excluded_from_search ON afolders(is_excluded_from_search)", context: FailureContext::Fixed("Migration 5 failed adding is_excluded_from_search index") },
        ]),
        migration_steps(migration_table()[5]) == (seq![
            MigrationOp::ExecuteBatch { sql: COLLECTIONS_SCHEMA, context: FailureContext::Fixed("Migration 9 failed creating collections") },
            MigrationOp::BeginTransaction { context: FailureContext::Fixed("Migration 9 (deduplicate album files) failed starting transaction") },
            MigrationOp::ExecuteBatch { sql: DEDUPLICATE_ALBUM_FILES, context: FailureContext::Fixed("Migration 9 (deduplicate album files) failed") },
            MigrationOp::Commit { context: FailureContext::Fixed("Migration 9 (deduplicate album files) failed committing transaction") },
            MigrationOp::SkipIfColumnExists { table: "afiles", column: "content_identifier", skip: 1 },
            MigrationOp::Execute { sql: "ALTER TABLE afiles ADD COLUMN content_identifier TEXT", context: FailureContext::Fixed("Migration 9 failed adding content_identifier") },
            MigrationOp::SkipIfColumnExists { table: "afiles", column: "media_subtype", skip: 1 },
            MigrationOp::Execute { sql: "ALTER TABLE afiles ADD COLUMN media_subtype TEXT", context: FailureContext::Fixed("Migration 9 failed adding media_subtype") },
            MigrationOp::SkipIfColumnExists { table: "afiles", column: "live_photo_video_id", skip: 1 },
            MigrationOp::Execute { sql: "ALTER TABLE afiles ADD COLUMN live_photo_video_id INTEGER", context: FailureContext::Fixed("Migration 9 failed adding live_photo_video_id") },
            MigrationOp::Execute { sql: "CREATE INDEX IF NOT EXISTS idx_afiles_content_identifier ON afiles(content_identifier)", context: FailureContext::Fixed("Migration 9 failed adding content_identifier index") },
            MigrationOp::Execute { sql: "CREATE INDEX IF NOT EXISTS idx_afiles_live_photo_video_id ON afiles(live_photo_video_id)", context: FailureContext::Fixed("Migration 9 failed adding live_photo_video_id index") },
            MigrationOp::Execute { sql: FILENAME_NOCASE_INDEX, context: FailureContext::Fixed("Migration 9 failed adding case-insensitive index") },
            MigrationOp::ExecuteBatch { sql: FOLDER_SCAN_STATE_SCHEMA, context: FailureContext::Fixed("Migration 9 failed creating folder scan state") },
        ]),
        migration_steps(migration_table()[6]) == (seq![
            MigrationOp::ExecuteBatch { sql: SIMILARITY_SCHEMA, context: FailureContext::Migration(10) },
        ]),
        migration_steps(migration_table()[7]) == (seq![
            MigrationOp::SkipIfColumnExists { table: "afiles", column: "culling_flag", skip: 1 },
            MigrationOp::Execute { sql: "ALTER TABLE afiles ADD COLUMN culling_flag INTEGER NOT NULL DEFAULT 0", context: FailureContext::Fixed("Migration 11 failed adding culling_flag") },
            MigrationOp::Execute { sql: "CREATE INDEX IF NOT EXISTS idx_afiles_culling_flag ON afiles(culling_flag)", context: FailureContext::Fixed("Migration 11 failed adding culling_flag index") },
        ]),
        migration_steps(migration_table()[8]) == (seq![
            MigrationOp::SkipIfColumnExists { table: "afolders", column: "has_subfolders", skip: 1 },
            MigrationOp::Execute { sql: "ALTER TABLE afolders ADD COLUMN has_subfolders INTEGER", context: FailureContext::Fixed("Migration 12 failed adding has_subfolders") },
        ]),
        migration_steps(migration_table()[9]) == (seq![
            MigrationOp::SkipIfColumnExists { table: "afolders", column: "inode", skip: 1 },
            MigrationOp::Execute { sql: "ALTER TABLE afolders ADD COLUMN inode INTEGER", context: FailureContext::Fixed("Migration 13 failed adding inode") },
            MigrationOp::Execute { sql: "CREATE INDEX IF NOT EXISTS idx_afolders_album_inode ON afolders(album_id, inode)", context: FailureContext::Fixed("Migration 13 failed creating inode index") },
        ]),
        migration_steps(migration_table()[10]) == (seq![
            MigrationOp::SkipIfColumnExists { table: "albums", column: "skipped_count", skip: 1 },
            MigrationOp::Execute { sql: "ALTER TABLE albums ADD COLUMN skipped_count INTEGER NOT NULL DEFAULT 0", context: FailureContext::Fixed("Migration 14 failed adding skipped_count") },
            MigrationOp::SkipIfColumnExists { table: "albums", column: "skipped_size", skip: 1 },
            MigrationOp::Execute { sql: "ALTER TABLE albums ADD COLUMN skipped_size INTEGER NOT NULL DEFAULT 0", context: FailureContext::Fixed("Migration 14 failed adding skipped_size") },
            MigrationOp::SkipIfColumnExists { table: "albums", column: "failed_count", skip: 1 },
            MigrationOp::Execute { sql: "ALTER TABLE albums ADD COLUMN failed_count INTEGER NOT NULL DEFAULT 0", context: FailureContext::Fixed("Migration 14 failed adding failed_count") },
            MigrationOp::SkipIfColumnExists { table: "albums", column: "failed_size", skip: 1 },
            MigrationOp::Execute { sql: "ALTER TABLE albums ADD COLUMN failed_size INTEGER NOT NULL DEFAULT 0", context: FailureContext::Fixed("Migration 14 failed adding failed_size") },
            MigrationOp::SkipIfColumnExists { table: "albums", column: "merged_count", skip: 1 },
            MigrationOp::Execute { sql: "ALTER TABLE albums ADD COLUMN merged_count INTEGER NOT NULL DEFAULT 0", context: FailureContext::Fixed("Migration 14 failed adding merged_count") },
            MigrationOp::SkipIfColumnExists { table: "albums", column: "merged_size", skip: 1 },
            MigrationOp::Execute { sql: "ALTER TABLE albums ADD COLUMN merged_size INTEGER NOT NULL DEFAULT 0", context: FailureContext::Fixed("Migration 14 failed adding merged_size") },
        ]),
        migration_steps(migration_table()[11]) == (seq![
            MigrationOp::SkipIfColumnExists { table: "similarity_group_items", column: "is_keep", skip: 2 },
            MigrationOp::Execute { sql: "ALTER TABLE similarity_group_items ADD COLUMN is_keep INTEGER NOT NULL DEFAULT 0", context: FailureContext::Fixed("Migration 15 failed adding is_keep") },
            MigrationOp::ExecuteBatch { sql: KEEP_STATE_BACKFILL, context: FailureContext::Fixed("Migration 15 failed initializing keep state") },
        ]),
        migration_steps(migration_table()[12]) == (seq![
            MigrationOp::SkipIfColumnExists { table: "afiles", column: "motion_photo_offset", skip: 1 },
            MigrationOp::Execute { sql: "ALTER TABLE afiles ADD COLUMN motion_photo_offset INTEGER", context: FailureContext::Fixed("Migration 16 failed adding motion_photo_offset") },
        ]),
        migration_steps(migration_table()[13]) == (seq![
            MigrationOp::BeginTransaction { context: FailureContext::Bare },
            MigrationOp::ExecuteBatch { sql: TAG_GROUPS_SCHEMA, context: FailureContext::Bare },
            MigrationOp::SkipIfColumnExists { table: "atags", column: "group_id", skip: 1 },
            MigrationOp::ExecuteBatch { sql: TAG_GROUP_COLUMN, context: FailureContext::Bare },
            MigrationOp::ExecuteBatch { sql: TAG_GROUP_TRIGGERS, context: FailureContext::Bare },
            MigrationOp::Commit { context: FailureContext::Bare },
        ]),
        migration_steps(migration_table()[14]) == (seq![
            MigrationOp::SkipIfColumnExists { table: "albums", column: "scan_cursor", skip: 1 },
            MigrationOp::Execute { sql: "ALTER TABLE albums ADD COLUMN scan_cursor INTEGER NOT NULL DEFAULT 0", context: FailureContext::Fixed("Migration 18 failed adding scan_cursor") },
        ]),
{
    lemma_schema_batches_are_not_blank();
}


/// `plan` runs migration `m` from position `k`: its progress line, then its work.
pub open spec fn runs_at(plan: Seq<MigrationOp>, k: int, m: Migration) -> bool {
    &&& 0 <= k
    &&& k + 1 + migration_steps(m).len() <= plan.len()
    &&& plan[k] == MigrationOp::Log(Notice::Applying { version: m.version, description: m.description })
    &&& plan.subrange(k + 1, k + 1 + migration_steps(m).len()) == migration_steps(m)
}

proof fn lemma_pending_runs(ms: Seq<Migration>, current: i32, i: int)
    requires
        0 <= i < ms.len(),
        ms[i].version > current,
    ensures
        exists|k: int| runs_at(pending_steps(ms, current), k, ms[i]),
    decreases ms.len(),
{
    let rest = ms.drop_last();
    let m = ms[i];
    let steps = migration_steps(m);
    if i == ms.len() - 1 {
        let k = pending_steps(rest, current).len() as int;
        assert(pending_steps(ms, current) == pending_steps(rest, current) + (seq![
            MigrationOp::Log(Notice::Applying { version: m.version, description: m.description }),
        ] + steps));
        assert(pending_steps(ms, current).subrange(k + 1, k + 1 + steps.len()) =~= steps);
        assert(runs_at(pending_steps(ms, current), k, m));
    } else {
        assert(rest[i] == m);
        lemma_pending_runs(rest, current, i);
        let k = choose|k: int| runs_at(pending_steps(rest, current), k, m);
        let before = pending_steps(rest, current);
        let after = pending_steps(ms, current);
        assert(after.subrange(0, before.len() as int) =~= before);
        assert(after.subrange(k + 1, k + 1 + steps.len()) =~= before.subrange(
            k + 1,
            k + 1 + steps.len(),
        ));
        assert(runs_at(after, k, m));
    }
}

/// Every migration of the table above the stored version is run: the plan
/// holds its progress line followed by exactly its work.
#[verifier::rlimit(50)]
pub proof fn lemma_plan_runs_each_newer_migration(current: i32, i: int)
    requires
        0 <= i < migration_table().len(),
        migration_table()[i].version > current,
    ensures
        exists|k: int| 1 <= k && runs_at(migration_plan(current), k, migration_table()[i]),
{
    let ms = migration_table();
    lemma_pending_runs(ms, current, i);
    let k = choose|k: int| runs_at(pending_steps(ms, current), k, ms[i]);
    let plan = migration_plan(current);
    let pending = pending_steps(ms, current);
    let steps = migration_steps(ms[i]);
    assert(plan.subrange(1, 1 + pending.len() as int) =~= pending);
    assert(plan.subrange(k + 2, k + 2 + steps.len()) =~= pending.subrange(k + 1, k + 1 + steps.len()));
    assert(runs_at(plan, k + 1, ms[i]));
}

/// A database below version 16 gets the motion photo offset column: after the
/// progress line of migration 16, the plan checks `afiles` for
/// `motion_photo_offset` and adds it with `ALTER TABLE` when it is missing.
#[verifier::rlimit(50)]
pub proof fn lemma_plan_adds_motion_photo_offset(current: i32)
    requires
        current < 16,
    ensures
        exists|k: int|
            1 <= k && k + 3 <= migration_plan(current).len() && #[trigger] migration_plan(current)[k]
                == MigrationOp::Log(
                Notice::Applying { version: 16, description: "Add motion photo offset" },
            ) && migration_plan(current)[k + 1] == (MigrationOp::SkipIfColumnExists {
                table: "afiles",
                column: "motion_photo_offset",
                skip: 1,
            }) && migration_plan(current)[k + 2] == (MigrationOp::Execute {
                sql: "ALTER TABLE afiles ADD COLUMN motion_photo_offset INTEGER",
                context: FailureContext::Fixed("Migration 16 failed adding motion_photo_offset"),
            }),
{
    lemma_migration_table_entries();
    lemma_migration_steps_of_each_version();
    lemma_plan_runs_each_newer_migration(current, 12);
    let plan = migration_plan(current);
    let k = choose|k: int| 1 <= k && runs_at(plan, k, migration_table()[12]);
    assert(plan.subrange(k + 1, k + 3)[0] == plan[k + 1]);
    assert(plan.subrange(k + 1, k + 3)[1] == plan[k + 2]);
}

proof fn lemma_steps_have_no_log(m: Migration)
    ensures
        forall|k: int| 0 <= k < migration_steps(m).len() ==> !(#[trigger] migration_steps(m)[k] is Log),
{
}


/// The version whose progress line `op` prints, when `op` is such a line.
pub open spec fn applied_version(op: MigrationOp) -> Option<i32> {
    match op {
        MigrationOp::Log(Notice::Applying { version, .. }) => Some(version),
        _ => None,
    }
}

/// Versions increase along `ms`.
pub open spec fn increasing(ms: Seq<Migration>) -> bool {
    forall|i: int, j: int| 0 <= i < j < ms.len() ==> #[trigger] ms[i].version < #[trigger] ms[j].version
}

proof fn lemma_pending_versions(ms: Seq<Migration>, current: i32)
    requires
        increasing(ms),
    ensures
        forall|k: int|
            0 <= k < pending_steps(ms, current).len() && #[trigger] applied_version(
                pending_steps(ms, current)[k],
            ) is Some ==> applied_version(pending_steps(ms, current)[k])->0 > current && (ms.len()
                > 0 ==> applied_version(pending_steps(ms, current)[k])->0 <= ms.last().version),
        forall|k1: int, k2: int|
            0 <= k1 < k2 < pending_steps(ms, current).len() && #[trigger] applied_version(
                pending_steps(ms, current)[k1],
            ) is Some && #[trigger] applied_version(pending_steps(ms, current)[k2]) is Some
                ==> applied_version(pending_steps(ms, current)[k1])->0 < applied_version(
                pending_steps(ms, current)[k2],
            )->0,
    decreases ms.len(),
{
    if ms.len() > 0 {
        let rest = ms.drop_last();
        let m = ms.last();
        assert(increasing(rest)) by {
            assert forall|i: int, j: int| 0 <= i < j < rest.len() implies #[trigger] rest[i].version
                < #[trigger] rest[j].version by {
                assert(rest[i] == ms[i] && rest[j] == ms[j]);
            }
        }
        lemma_pending_versions(rest, current);
        lemma_steps_have_no_log(m);
        let before = pending_steps(rest, current);
        let after = pending_steps(ms, current);
        if rest.len() > 0 {
            assert(rest.last() == ms[ms.len() - 2]);
            assert(rest.last().version < m.version);
        }
        if m.version > current {
            let tail = seq![
                MigrationOp::Log(Notice::Applying { version: m.version, description: m.description }),
            ] + migration_steps(m);
            assert(after == before + tail);
            assert forall|k: int| 0 <= k < after.len() && #[trigger] applied_version(after[k])
                is Some implies applied_version(after[k])->0 > current && applied_version(
                after[k],
            )->0 <= m.version by {
                if k < before.len() {
                    assert(after[k] == before[k]);
                } else if k > before.len() {
                    assert(after[k] == migration_steps(m)[k - before.len() - 1]);
                }
            }
            assert forall|k1: int, k2: int|
                0 <= k1 < k2 < after.len() && #[trigger] applied_version(after[k1]) is Some
                    && #[trigger] applied_version(after[k2]) is Some implies applied_version(
                after[k1],
            )->0 < applied_version(after[k2])->0 by {
                if k2 < before.len() {
                    assert(after[k1] == before[k1] && after[k2] == before[k2]);
                } else if k2 == before.len() {
                    assert(after[k1] == before[k1]);
                    assert(applied_version(before[k1]) is Some);
                } else {
                    assert(after[k2] == migration_steps(m)[k2 - before.len() - 1]);
                }
            }
        } else {
            assert(after =~= before);
        }
    }
}

/// Only migrations above the stored version run, each at most once and in
/// increasing version order.
#[verifier::rlimit(50)]
pub proof fn lemma_plan_applies_only_newer_migrations(current: i32)
    ensures
        forall|k: int|
            0 <= k < migration_plan(current).len() && #[trigger] applied_version(
                migration_plan(current)[k],
            ) is Some ==> applied_version(migration_plan(current)[k])->0 > current,
        forall|k1: int, k2: int|
            0 <= k1 < k2 < migration_plan(current).len() && #[trigger] applied_version(
                migration_plan(current)[k1],
            ) is Some && #[trigger] applied_version(migration_plan(current)[k2]) is Some
                ==> applied_version(migration_plan(current)[k1])->0 < applied_version(
                migration_plan(current)[k2],
            )->0,
{
    let ms = migration_table();
    lemma_versions_strictly_increase();
    assert(increasing(ms));
    lemma_pending_versions(ms, current);
    let plan = migration_plan(current);
    let pending = pending_steps(ms, current);
    assert forall|k: int| 0 <= k < plan.len() && applied_version(plan[k]) is Some implies 1 <= k
        < 1 + pending.len() && plan[k] == pending[k - 1] by {
        if 1 <= k < 1 + pending.len() {
            assert(plan[k] == pending[k - 1]);
        }
    }
}

proof fn lemma_pending_prefix(ms: Seq<Migration>, current: i32, j: int)
    requires
        0 <= j <= ms.len(),
    ensures
        pending_steps(ms.take(j), current).len() <= pending_steps(ms, current).len(),
        pending_steps(ms, current).subrange(0, pending_steps(ms.take(j), current).len() as int)
            == pending_steps(ms.take(j), current),
    decreases ms.len(),
{
    if j == ms.len() {
        assert(ms.take(j) =~= ms);
        assert(pending_steps(ms, current).subrange(0, pending_steps(ms, current).len() as int)
            =~= pending_steps(ms, current));
    } else {
        assert(ms.take(j) =~= ms.drop_last().take(j));
        lemma_pending_prefix(ms.drop_last(), current, j);
        let short = pending_steps(ms.take(j), current);
        let before = pending_steps(ms.drop_last(), current);
        let after = pending_steps(ms, current);
        assert(after.subrange(0, short.len() as int) =~= before.subrange(0, short.len() as int));
    }
}

/// A new database (stored version 0) first reports the version, then runs
/// migration 1: the whole deduplication schema as one batch.
#[verifier::rlimit(50)]
pub proof fn lemma_new_database_creates_deduplication_schema()
    ensures
        migration_plan(0)[1] == MigrationOp::Log(
            Notice::Applying { version: 1, description: "Create deduplication tables" },
        ),
        migration_plan(0)[2] == (MigrationOp::ExecuteBatch {
            sql: DEDUPLICATION_SCHEMA,
            context: FailureContext::Migration(1),
        }),
{
    lemma_migration_table_entries();
    lemma_migration_steps_of_each_version();
    let ms = migration_table();
    lemma_pending_prefix(ms, 0, 1);
    let first = ms.take(1);
    assert(first.drop_last() =~= Seq::<Migration>::empty());
    assert(first.last() == ms[0]);
    let short = pending_steps(first, 0);
    assert(pending_steps(first.drop_last(), 0) == pending_steps(Seq::<Migration>::empty(), 0));
    assert(migration_steps(first.last()) == migration_steps(ms[0]));
    assert(short =~= seq![
        MigrationOp::Log(Notice::Applying { version: 1, description: "Create deduplication tables" }),
        MigrationOp::ExecuteBatch { sql: DEDUPLICATION_SCHEMA, context: FailureContext::Migration(1) },
    ]);
    let pending = pending_steps(ms, 0);
    assert(pending.subrange(0, 2)[0] == pending[0]);
    assert(pending.subrange(0, 2)[1] == pending[1]);
    assert(migration_plan(0)[1] == pending[0]);
    assert(migration_plan(0)[2] == pending[1]);
}


/// A failed action ends the run with an error and asks for nothing more: a
/// failed version read reports the database's message as it is.
pub proof fn lemma_failure_ends_run(
    before: MigrationRun,
    cause: String,
    after: MigrationRun,
    action: DbAction,
)
    requires
        step_taken(before, Err(cause), after, action),
    ensures
        after.stage() is Finished,
        (action matches DbAction::Finish(Err(message)) && (before.stage() is ReadingVersion
            ==> message@ == cause@)),
{
}

/// A column check that finds the column passes over the steps that would add
/// it; one that does not find it goes on with the very next step (the
/// `ALTER TABLE`). Any other successful step goes on with the next one.
pub proof fn lemma_column_check_controls_addition(
    before: MigrationRun,
    reply: DbReply,
    after: MigrationRun,
    action: DbAction,
)
    requires
        before.stage() is Applying,
        0 <= before.pc() < before.plan().len(),
        step_taken(before, Ok(reply), after, action),
    ensures
        ({
            let op = before.plan()[before.pc()];
            let next = if op is SkipIfColumnExists && reply == DbReply::HasColumn(true) {
                before.pc() + 1 + op->skip
            } else {
                before.pc() + 1
            };
            &&& next < before.plan().len() ==> after.stage() is Applying && after.pc() == next
                && after.plan() == before.plan() && requests(action, before.plan()[next])
            &&& next >= before.plan().len() ==> after.stage() is Finished && (action matches DbAction::Finish(Ok(())))
        }),
{
}

/// Every plan starts by reporting the stored version.
pub proof fn lemma_plan_reports_version_first(current: i32)
    ensures
        migration_plan(current)[0] == MigrationOp::Log(Notice::CurrentVersion(current)),
{
}

/// The texts of failures: a bare cause as it is, a fixed context as
/// `"<context>: <cause>"`, a migration as `"Migration <version> failed: <cause>"`,
/// and a failed version update as `"Failed to update user_version: <cause>"`.
pub proof fn lemma_failure_texts(prefix: &'static str, version: i32, cause: Seq<char>)
    ensures
        failure_text(FailureContext::Bare, cause) == cause,
        failure_text(FailureContext::Fixed(prefix), cause) == prefix@ + ": "@ + cause,
        failure_text(FailureContext::Migration(version), cause) == "Migration "@ + decimal_text(
            version as int,
        ) + " failed: "@ + cause,
        op_failure_text(MigrationOp::SetUserVersion { version }, cause)
            == "Failed to update user_version: "@ + cause,
        op_failure_text(
            MigrationOp::SkipIfColumnExists { table: prefix, column: prefix, skip: 1 },
            cause,
        ) == cause,
{
}

/// The progress lines and the statement that stores the version.
pub proof fn lemma_notice_and_version_texts(version: i32, description: &'static str, action: DbAction)
    ensures
        notice_text(Notice::CurrentVersion(version)) == "Current DB version: "@ + decimal_text(
            version as int,
        ),
        notice_text(Notice::Applying { version, description }) == "Applying migration "@
            + decimal_text(version as int) + ": "@ + description@,
        notice_text(Notice::Migrated(version)) == "Database successfully migrated to version "@
            + decimal_text(version as int),
        notice_text(Notice::UpToDate) == "Database is up to date."@,
        requests(action, (MigrationOp::SetUserVersion { version })) ==> (action matches DbAction::ExecuteBatch(
            text,
        ) && text@ == "PRAGMA user_version = "@ + decimal_text(version as int) + ";"@),
{
}

} // verus!
