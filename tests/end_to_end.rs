use rustcanvas::codec::decode;
use rustcanvas::config::{Config, ConfigError};
use rustcanvas::loader::resolve_config;
use rustcanvas::store::{BootAction, BootEvent, Bootstrap, StoreError, INIT_SCRIPT};
use std::path::Path;

/// A file system held in memory: directories, and files with their text.
#[derive(Default)]
struct Disk {
    dirs: Vec<String>,
    files: Vec<(String, String)>,
    writes: usize,
}

impl Disk {
    fn read(&self, path: &str) -> Option<String> {
        self.files.iter().find(|(p, _)| p == path).map(|(_, t)| t.clone())
    }

    fn create_dirs(&mut self, path: &Path) {
        for a in path.ancestors() {
            let s = a.to_str().unwrap().to_string();
            if !s.is_empty() && !self.dirs.contains(&s) {
                self.dirs.push(s);
            }
        }
    }

    fn write(&mut self, path: &str, text: String) {
        let parent = Path::new(path).parent().unwrap().to_str().unwrap().to_string();
        assert!(parent.is_empty() || self.dirs.contains(&parent), "directory made before the write");
        self.files.retain(|(p, _)| p != path);
        self.files.push((path.to_string(), text));
        self.writes += 1;
    }
}

fn load(disk: &mut Disk, path: &str) -> Result<Config, ConfigError> {
    let existing = disk.read(path);
    let outcome = resolve_config(existing.as_deref())?;
    if let Some(text) = outcome.write {
        if let Some(parent) = Path::new(path).parent() {
            disk.create_dirs(parent);
        }
        disk.write(path, text);
    }
    Ok(outcome.config)
}

fn open(disk: &mut Disk, path: &str) -> Result<rusqlite::Connection, StoreError> {
    let (mut boot, mut action) = Bootstrap::start(path);
    let mut conn: Option<rusqlite::Connection> = None;
    loop {
        let event = match action {
            BootAction::CheckFile => BootEvent::FileChecked { exists: disk.read(path).is_some() },
            BootAction::CreateFile => {
                disk.write(path, String::new());
                BootEvent::FileCreated { ok: true }
            }
            BootAction::OpenConnection => {
                conn = rusqlite::Connection::open_in_memory().ok();
                BootEvent::ConnectionOpened { ok: conn.is_some() }
            }
            BootAction::RunScript => {
                let ok = conn.as_ref().map(|c| c.execute(INIT_SCRIPT, []).is_ok()).unwrap_or(false);
                BootEvent::ScriptRan { ok }
            }
            BootAction::Finish => return Ok(conn.take().unwrap()),
            BootAction::Abort(e) => return Err(e),
        };
        action = boot.step(event);
    }
}

#[test]
fn load_creates_directories_and_defaults() {
    let mut disk = Disk::default();
    let c = load(&mut disk, "a/b/app.json").unwrap();
    assert!(disk.dirs.contains(&"a/b".to_string()));
    assert!(disk.dirs.contains(&"a".to_string()));
    assert!(disk.read("a/b/app.json").is_some());
    assert_eq!(c.network.interface, "0.0.0.0");
    assert_eq!(c.network.port, 3250);
    assert_eq!(c.database_path, "database.db");
    let again = load(&mut disk, "a/b/app.json").unwrap();
    assert_eq!(again.network.interface, c.network.interface);
    assert_eq!(again.network.port, c.network.port);
    assert_eq!(again.database_path, c.database_path);
    assert_eq!(disk.writes, 1);
}

#[test]
fn malformed_file_is_rejected_and_kept() {
    let mut disk = Disk::default();
    let text = "{\"network\": {\"interface\": \"0.0.0.0\", \"port\": \"not-a-number\"}}";
    disk.files.push(("app.json".to_string(), text.to_string()));
    assert!(matches!(load(&mut disk, "app.json"), Err(ConfigError::Parse)));
    assert_eq!(disk.read("app.json").unwrap(), text);
    assert_eq!(disk.writes, 0);
}

#[test]
fn empty_directory_to_open_store() {
    let mut disk = Disk::default();
    let c = load(&mut disk, "cfg/app.json").unwrap();
    let written = disk.read("cfg/app.json").unwrap();
    assert!(written.contains("\n  \"network\": {\n    \"interface\": \"0.0.0.0\",\n    \"port\": 3250\n  }"));
    assert!(written.contains("\"database_path\": \"database.db\""));
    let parsed = decode(&written).unwrap();
    assert_eq!(parsed.network.interface, "0.0.0.0");
    assert_eq!(parsed.network.port, 3250);
    assert_eq!(parsed.database_path, "database.db");
    let conn = open(&mut disk, &c.database_path).unwrap();
    assert!(disk.read("database.db").is_some());
    let mut stmt = conn.prepare("SELECT name FROM pragma_table_info('users') ORDER BY cid").unwrap();
    let cols: Vec<String> = stmt.query_map([], |r| r.get::<_, String>(0)).unwrap().map(|r| r.unwrap()).collect();
    assert_eq!(cols, vec!["username", "password_hash", "salt", "permissions"]);
}

#[test]
fn empty_store_path_leaves_disk_untouched() {
    let mut disk = Disk::default();
    assert!(matches!(open(&mut disk, ""), Err(StoreError::EmptyPath)));
    assert!(disk.files.is_empty());
    assert_eq!(disk.writes, 0);
}
