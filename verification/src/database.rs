//! The database clients and the dump commands they run.
use crate::config::{path_join, spec_path_join, MySqlConfig, PostgreSqlConfig};
use crate::compression::{archive_day, with_7z_extension};
use crate::date::{is_four_digit_year_day, spec_backup_stamp, UtcTime};
use crate::storage::has_no_separator;
use crate::text::{concat2, concat3, decimal, u64_to_string};
use vstd::prelude::*;

verus! {

/// A PostgreSQL server to back up.
#[derive(Debug)]
pub struct PostgreSql(PostgreSqlConfig);

/// A MySQL server to back up.
#[derive(Debug)]
pub struct MySql(MySqlConfig);

impl View for PostgreSql {
    type V = PostgreSqlConfig;

    closed spec fn view(&self) -> PostgreSqlConfig {
        self.0
    }
}

impl View for MySql {
    type V = MySqlConfig;

    closed spec fn view(&self) -> MySqlConfig {
        self.0
    }
}

impl PostgreSql {
    /// A client for the server of `config`.
    pub fn new(config: &PostgreSqlConfig) -> (r: Self)
        ensures
            r@ == *config,
    {
        PostgreSql(
            PostgreSqlConfig {
                host: config.host.clone(),
                port: config.port,
                username: config.username.clone(),
                password: config.password.clone(),
            },
        )
    }

    /// The connection settings.
    pub fn config(&self) -> (r: &PostgreSqlConfig)
        ensures
            *r == self@,
    {
        &self.0
    }
}

impl MySql {
    /// A client for the server of `config`.
    pub fn new(config: &MySqlConfig) -> (r: Self)
        ensures
            r@ == *config,
    {
        MySql(
            MySqlConfig {
                host: config.host.clone(),
                port: config.port,
                username: config.username.clone(),
                password: config.password.clone(),
            },
        )
    }

    /// The connection settings.
    pub fn config(&self) -> (r: &MySqlConfig)
        ensures
            *r == self@,
    {
        &self.0
    }
}

/// The client of the configured database.
#[derive(Debug)]
pub enum DatabaseClient {
    Postgresql(PostgreSql),
    MySql(MySql),
}


/// An external dump program run with one environment variable set, whose
/// standard output is written to `backup_path`.
#[derive(Debug)]
pub struct DumpCommand {
    /// The program to run.
    pub program: String,
    /// Its arguments, in order.
    pub args: Vec<String>,
    /// The name of the environment variable that carries the password.
    pub env_name: String,
    /// The password.
    pub env_value: String,
    /// The file the dump is written to.
    pub backup_path: String,
    /// The start of the error message when the program fails.
    pub failure_prefix: String,
}

/// The characters of each string.
pub open spec fn strings_view(v: Seq<String>) -> Seq<Seq<char>> {
    v.map_values(|s: String| s@)
}

/// The file name of a dump of `database_name` taken at `now`:
/// `{database_name}_{YYYYMMDD}_{HHMMSS}.sql`.
pub open spec fn dump_file_name(database_name: Seq<char>, now: UtcTime) -> Seq<char> {
    database_name + "_"@ + spec_backup_stamp(now.spec_secs(), now.spec_nanos()) + ".sql"@
}

/// The path of a dump of `database_name` taken at `now` in `backup_dir`.
pub open spec fn dump_path(backup_dir: Seq<char>, database_name: Seq<char>, now: UtcTime) -> Seq<
    char,
> {
    spec_path_join(backup_dir, dump_file_name(database_name, now))
}

/// The path of a dump of `database_name` stamped `stamp` in `backup_dir`:
/// `{database_name}_{stamp}.sql` joined onto the directory.
pub fn dump_file_path(backup_dir: &str, database_name: &str, stamp: &str) -> (r: String)
    ensures
        r@ == spec_path_join(backup_dir@, database_name@ + "_"@ + stamp@ + ".sql"@),
{
    let mut name = concat3(database_name, "_", stamp);
    name.append(".sql");
    path_join(backup_dir, name.as_str())
}

/// The archive made of the dump at `backup_path` reads back as the day of
/// `now`, when the database name is a single path component and `now`
/// falls in the years 1 to 9999.
pub open spec fn archive_reads_back_day(database_name: Seq<char>, backup_path: Seq<char>, now: UtcTime) -> bool {
    (has_no_separator(database_name) && is_four_digit_year_day(now.spec_day())) ==> archive_day(
        with_7z_extension(backup_path),
    ) == Some(now.spec_day() as i32)
}

/// The path of the dump file.
fn build_dump_path(backup_dir: &str, database_name: &str, now: UtcTime) -> (r: String)
    ensures
        r@ == dump_path(backup_dir@, database_name@, now),
        archive_reads_back_day(database_name@, r@, now),
{
    let stamp = now.format_backup_stamp();
    let r = dump_file_path(backup_dir, database_name, stamp.as_str());
    proof {
        if has_no_separator(database_name@) && is_four_digit_year_day(now.spec_day()) {
            reveal_strlit("_");
            reveal_strlit(".sql");
            assert(database_name@ + "_"@ + stamp@ + ".sql"@ =~= crate::laws::dump_name(
                database_name@,
                stamp@,
            ));
            crate::laws::law_dump_archive_reads_back_as_its_day(
                backup_dir@,
                database_name@,
                stamp@,
                now.spec_day(),
            );
        }
    }
    r
}

/// The arguments of `pg_dump`: host, port, user and database.
pub open spec fn pg_dump_args(config: PostgreSqlConfig, database_name: Seq<char>) -> Seq<Seq<char>> {
    seq![
        "-h"@,
        config.host@,
        "-p"@,
        decimal(config.port as nat),
        "-U"@,
        config.username@,
        "-d"@,
        database_name,
    ]
}

/// The arguments of `mysqldump`: host, port, user and database.
pub open spec fn mysqldump_args(config: MySqlConfig, database_name: Seq<char>) -> Seq<Seq<char>> {
    seq!["-h"@, config.host@, "-P"@, decimal(config.port as nat), "-u"@, config.username@, database_name]
}

impl PostgreSql {
    /// The `pg_dump` run that backs up `database_name` into `backup_dir` at
    /// the instant `now`, the password passed as `PGPASSWORD`.
    pub fn dump_command(&self, database_name: &str, backup_dir: &str, now: UtcTime) -> (r:
        DumpCommand)
        ensures
            r.program@ == "pg_dump"@,
            strings_view(r.args@) == pg_dump_args(self@, database_name@),
            r.env_name@ == "PGPASSWORD"@,
            r.env_value@ == self@.password@,
            r.backup_path@ == dump_path(backup_dir@, database_name@, now),
            archive_reads_back_day(database_name@, r.backup_path@, now),
            r.failure_prefix@ == "pg_dump failed for database "@ + database_name@,
    {
        let backup_path = build_dump_path(backup_dir, database_name, now);
        let mut args: Vec<String> = Vec::new();
        args.push(String::from_str("-h"));
        args.push(self.0.host.clone());
        args.push(String::from_str("-p"));
        args.push(u64_to_string(self.0.port as u64));
        args.push(String::from_str("-U"));
        args.push(self.0.username.clone());
        args.push(String::from_str("-d"));
        args.push(String::from_str(database_name));
        proof {
            assert(strings_view(args@) =~= pg_dump_args(self@, database_name@));
        }
        DumpCommand {
            program: String::from_str("pg_dump"),
            args,
            env_name: String::from_str("PGPASSWORD"),
            env_value: self.0.password.clone(),
            backup_path,
            failure_prefix: concat2("pg_dump failed for database ", database_name),
        }
    }
}

impl MySql {
    /// The `mysqldump` run that backs up `database_name` into `backup_dir` at
    /// the instant `now`, the password passed as `MYSQL_PWD`.
    pub fn dump_command(&self, database_name: &str, backup_dir: &str, now: UtcTime) -> (r:
        DumpCommand)
        ensures
            r.program@ == "mysqldump"@,
            strings_view(r.args@) == mysqldump_args(self@, database_name@),
            r.env_name@ == "MYSQL_PWD"@,
            r.env_value@ == self@.password@,
            r.backup_path@ == dump_path(backup_dir@, database_name@, now),
            archive_reads_back_day(database_name@, r.backup_path@, now),
            r.failure_prefix@ == "mysqldump failed for database "@ + database_name@,
    {
        let backup_path = build_dump_path(backup_dir, database_name, now);
        let mut args: Vec<String> = Vec::new();
        args.push(String::from_str("-h"));
        args.push(self.0.host.clone());
        args.push(String::from_str("-P"));
        args.push(u64_to_string(self.0.port as u64));
        args.push(String::from_str("-u"));
        args.push(self.0.username.clone());
        args.push(String::from_str(database_name));
        proof {
            assert(strings_view(args@) =~= mysqldump_args(self@, database_name@));
        }
        DumpCommand {
            program: String::from_str("mysqldump"),
            args,
            env_name: String::from_str("MYSQL_PWD"),
            env_value: self.0.password.clone(),
            backup_path,
            failure_prefix: concat2("mysqldump failed for database ", database_name),
        }
    }
}

impl DatabaseClient {
    /// The dump run of whichever database this client serves.
    pub fn dump_command(&self, database_name: &str, backup_dir: &str, now: UtcTime) -> (r:
        DumpCommand)
        ensures
            match self {
                DatabaseClient::Postgresql(p) => r.program@ == "pg_dump"@ && strings_view(r.args@)
                    == pg_dump_args(p@, database_name@) && r.env_name@ == "PGPASSWORD"@
                    && r.env_value@ == p@.password@ && r.failure_prefix@
                    == "pg_dump failed for database "@ + database_name@,
                DatabaseClient::MySql(m) => r.program@ == "mysqldump"@ && strings_view(r.args@)
                    == mysqldump_args(m@, database_name@) && r.env_name@ == "MYSQL_PWD"@
                    && r.env_value@ == m@.password@ && r.failure_prefix@
                    == "mysqldump failed for database "@ + database_name@,
            },
            r.backup_path@ == dump_path(backup_dir@, database_name@, now),
            archive_reads_back_day(database_name@, r.backup_path@, now),
    {
        match self {
            DatabaseClient::Postgresql(p) => p.dump_command(database_name, backup_dir, now),
            DatabaseClient::MySql(m) => m.dump_command(database_name, backup_dir, now),
        }
    }
}

/// The error reported when a dump program fails: `{prefix}: {stderr}`, the
/// program's standard error decoded lossily.
pub fn dump_failure(failure_prefix: &str, stderr: &str) -> (r: crate::error::Error)
    ensures
        r matches crate::error::Error::DatabaseBackup(m) && m@ == failure_prefix@ + ": "@ + stderr@,
{
    let m = concat3(failure_prefix, ": ", stderr);
    crate::error::Error::DatabaseBackup(m)
}

} // verus!
