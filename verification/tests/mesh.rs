use hilaw::browse::{
    browse_entry, browse_page, default_limit, default_offset, device_not_found, find_device,
    DeviceWithDirs,
};
use hilaw::error::AppError;
use hilaw::media::{default_thumb_size, resolve_device};
use hilaw::salita_client::{DeviceInfo, FileEntry, NodeInfo, SalitaClient};

fn device(id: &str, name: &str, endpoint: Option<&str>, port: i64, is_self: bool) -> DeviceInfo {
    DeviceInfo {
        id: id.to_string(),
        name: name.to_string(),
        endpoint: endpoint.map(str::to_string),
        port,
        is_self,
        status: "online".to_string(),
        last_seen: None,
    }
}

fn file(name: &str, is_dir: bool) -> FileEntry {
    FileEntry { name: name.to_string(), path: format!("/{name}"), is_dir, size: 7, modified: None }
}

#[test]
fn client_drops_trailing_slashes() {
    assert_eq!(SalitaClient::new("http://localhost:6969").base_url(), "http://localhost:6969");
    assert_eq!(SalitaClient::new("http://localhost:6969///").base_url(), "http://localhost:6969");
    assert_eq!(SalitaClient::new("///").base_url(), "");
    assert_eq!(SalitaClient::new("").base_url(), "");
    let once = SalitaClient::new("http://h/x/");
    assert_eq!(SalitaClient::new(once.base_url()).base_url(), once.base_url());
}

#[test]
fn device_urls() {
    let client = SalitaClient::new("http://localhost:6969/");
    assert_eq!(client.device_url(&device("1", "me", Some("10.0.0.2"), 7000, true)), "http://localhost:6969");
    assert_eq!(client.device_url(&device("2", "nas", Some("10.0.0.3"), 6969, false)), "http://10.0.0.3:6969");
    assert_eq!(client.device_url(&device("3", "old", None, 1, false)), "http://localhost:6969");
    assert_eq!(client.device_url(&device("4", "odd", Some("h"), -5, false)), "http://h:-5");
    assert_eq!(
        client.device_url(&device("5", "min", Some("h"), i64::MIN, false)),
        "http://h:-9223372036854775808"
    );
    assert_eq!(client.device_url(&device("6", "zero", Some("h"), 0, false)), "http://h:0");
}

#[test]
fn find_device_by_id_or_name_first_wins() {
    let devices = vec![
        device("a1", "laptop", None, 1, true),
        device("b2", "a1", Some("x"), 2, false),
        device("c3", "nas", Some("y"), 3, false),
    ];
    assert_eq!(find_device(&devices, "a1").map(|d| d.id.as_str()), Some("a1"));
    assert_eq!(find_device(&devices, "nas").map(|d| d.id.as_str()), Some("c3"));
    assert_eq!(find_device(&devices, "c3").map(|d| d.id.as_str()), Some("c3"));
    assert!(find_device(&devices, "missing").is_none());
    assert!(find_device(&Vec::new(), "a1").is_none());
}

#[test]
fn resolve_device_reports_missing() {
    let client = SalitaClient::new("http://local");
    let devices = vec![device("a1", "laptop", None, 1, true), device("b2", "nas", Some("y"), 80, false)];
    assert_eq!(
        resolve_device(&client, &devices, "nas"),
        Ok(("b2".to_string(), "http://y:80".to_string()))
    );
    assert_eq!(
        resolve_device(&client, &devices, "tv"),
        Err(AppError::NotFound("Device not found: tv".to_string()))
    );
    assert_eq!(device_not_found("x"), AppError::NotFound("Device not found: x".to_string()));
}

#[test]
fn browse_defaults() {
    assert_eq!(default_offset(), 0);
    assert_eq!(default_limit(), 100);
    assert_eq!(default_thumb_size(), 300);
}

#[test]
fn entries_are_classified() {
    let e = browse_entry(file("IMG.CR3", false));
    assert_eq!(e.file_type, "raw");
    assert_eq!(e.path, "/IMG.CR3");
    assert_eq!(browse_entry(file("photos.jpg", true)).file_type, "dir");
    assert_eq!(browse_entry(file("a.mov", false)).file_type, "video");
}

fn names(r: &hilaw::browse::BrowseResponse) -> Vec<&str> {
    r.entries.iter().map(|e| e.name.as_str()).collect()
}

#[test]
fn pages_of_a_listing() {
    let files = || (0..5).map(|i| file(&format!("f{i}.nef"), false)).collect::<Vec<_>>();
    let p = browse_page(files(), 0, 2);
    assert_eq!(names(&p), vec!["f0.nef", "f1.nef"]);
    assert_eq!((p.total, p.offset, p.has_more), (5, 0, true));
    let p = browse_page(files(), 3, 2);
    assert_eq!(names(&p), vec!["f3.nef", "f4.nef"]);
    assert!(!p.has_more);
    let p = browse_page(files(), 4, 10);
    assert_eq!(names(&p), vec!["f4.nef"]);
    let p = browse_page(files(), 9, 10);
    assert!(p.entries.is_empty());
    assert_eq!((p.total, p.offset, p.has_more), (5, 9, false));
    let p = browse_page(files(), 1, 0);
    assert!(p.entries.is_empty());
    assert!(p.has_more);
    let p = browse_page(files(), usize::MAX, usize::MAX);
    assert!(p.entries.is_empty());
    assert!(!p.has_more);
    let p = browse_page(files(), 2, usize::MAX);
    assert_eq!(names(&p), vec!["f2.nef", "f3.nef", "f4.nef"]);
    assert!(!p.has_more);
}

#[test]
fn consecutive_pages_cover_listing() {
    let files = || (0..7).map(|i| file(&format!("g{i}"), i % 2 == 0)).collect::<Vec<_>>();
    let a = browse_page(files(), 1, 2);
    let b = browse_page(files(), 3, 3);
    let ab = browse_page(files(), 1, 5);
    let mut joined = names(&a);
    joined.extend(names(&b));
    assert_eq!(joined, names(&ab));
}

#[test]
fn devices_with_directories() {
    let d = device("a", "b", None, 1, true);
    let node = NodeInfo {
        id: "a".into(),
        name: "b".into(),
        version: "1".into(),
        directories: vec!["Photos".into(), "Videos".into()],
    };
    let w = DeviceWithDirs::new(d.clone(), Some(node));
    assert_eq!(w.directories, vec!["Photos".to_string(), "Videos".to_string()]);
    assert_eq!(w.device, d);
    assert!(DeviceWithDirs::new(d, None).directories.is_empty());
}
