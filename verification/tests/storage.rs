use simpleshortener::db::{flush_urls, init_db_storage, StoragePathError};
use simpleshortener::error::WebServerError;
use simpleshortener::redirect_handlers::{header_value_ok, redirect, root, ScanReply};
use simpleshortener::tables::LinkTable;
use simpleshortener::AppState;

fn table_of(rows: &[(&str, &str)]) -> LinkTable {
    AppState::new(rows.iter().map(|(k, v)| (k.to_string(), v.to_string())).collect(), false).urls
}

fn lookup(urls: LinkTable, link: &str) -> Option<String> {
    AppState { urls, tokens: dashmap::DashSet::new(), is_init: false }.destination(link)
}
use simpleshortener::utils::{get_port, get_port_tls, qrgen, read_bincode, save_bincode, PortError};

#[test]
fn empty_table_file() {
    let loaded = read_bincode(None).unwrap();
    assert_eq!(loaded.create_with, Some(vec![0u8; 8]));
    assert_eq!(lookup(loaded.urls, "/a"), None);
}

#[test]
fn table_file_format() {
    let table = table_of(&[("a", "b")]);
    let bytes = save_bincode(&table).unwrap();
    assert_eq!(
        bytes,
        vec![1, 0, 0, 0, 0, 0, 0, 0, 1, 0, 0, 0, 0, 0, 0, 0, b'a', 1, 0, 0, 0, 0, 0, 0, 0, b'b']
    );
}

#[test]
fn flushed_table_reads_back() {
    let table = table_of(&[("/a", "https://one"), ("/b", "https://two")]);
    let bytes = flush_urls(&table).unwrap();
    let loaded = read_bincode(Some(&bytes)).unwrap();
    assert!(loaded.create_with.is_none());
    let state = AppState { urls: loaded.urls, tokens: dashmap::DashSet::new(), is_init: false };
    assert_eq!(state.destination("/a"), Some("https://one".to_string()));
    assert_eq!(state.destination("/b"), Some("https://two".to_string()));
    assert_eq!(state.destination("/c"), None);
}

#[test]
fn corrupt_file_is_refused() {
    assert!(read_bincode(Some(&[5, 0, 0])).is_err());
}

#[test]
fn storage_path() {
    assert_eq!(init_db_storage(Some("kept".to_string()), None, None), Ok("kept".to_string()));
    assert_eq!(init_db_storage(None, None, Some("env".to_string())), Err(StoragePathError::ConfigNotSet));
    assert_eq!(
        init_db_storage(None, Some(Some("config".to_string())), Some("env".to_string())),
        Ok("config".to_string())
    );
    assert_eq!(init_db_storage(None, Some(None), Some("env".to_string())), Ok("env".to_string()));
    assert_eq!(init_db_storage(None, Some(None), None), Err(StoragePathError::DatabaseUriNotSet));
}

#[test]
fn ports() {
    assert_eq!(get_port(Some("8080"), Some(1)).unwrap(), 8080);
    assert_eq!(get_port(Some("+80"), None).unwrap(), 80);
    assert_eq!(get_port(Some("065535"), None).unwrap(), 65535);
    assert!(matches!(get_port(Some("65536"), None), Err(PortError::Invalid(_))));
    assert!(matches!(get_port(Some("-1"), None), Err(PortError::Invalid(_))));
    assert!(matches!(get_port(Some(" 80"), None), Err(PortError::Invalid(_))));
    assert!(matches!(get_port(Some("+"), None), Err(PortError::Invalid(_))));
    assert!(matches!(get_port(Some(""), None), Err(PortError::Invalid(_))));
    assert_eq!(get_port(None, Some(3000)).unwrap(), 3000);
    assert!(matches!(get_port(None, None), Err(PortError::NotSet)));
    assert_eq!(get_port_tls(Some("443"), Some(1)).unwrap(), 443);
    assert_eq!(get_port_tls(None, Some(8443)).unwrap(), 8443);
}

#[test]
fn scanning_redirects() {
    let table = table_of(&[("abc", "https://example.com")]);
    let found = redirect(Some(&table), "abc");
    assert_eq!(found.status(), 302);
    assert!(matches!(found, ScanReply::Found(ref to) if to == "https://example.com"));
    let missing = redirect(Some(&table), "ABC");
    assert_eq!(missing.status(), 404);
    let broken = redirect(None, "abc");
    assert_eq!(broken.status(), 500);
    assert_eq!(root().status(), 200);
}

#[test]
fn qr_of_long_data_fails() {
    let long = "x".repeat(5000);
    let e = qrgen(long).unwrap_err();
    assert!(matches!(e, WebServerError::Qr(_)));
    assert!(e.message().starts_with("QR creation error: "));
    let ok = qrgen("https://example.com".to_string()).unwrap();
    assert_eq!(&ok[0..2], b"BM");
}

#[test]
fn both_qr_helpers_agree() {
    let a = qrgen("https://example.net".to_string()).unwrap();
    let b = simpleshortener::qr::gen("https://example.net").unwrap();
    assert_eq!(a, b);
}

#[test]
fn trailing_bytes_after_the_table_are_ignored() {
    let mut bytes = save_bincode(&table_of(&[("/a", "x")])).unwrap();
    bytes.extend_from_slice(&[9, 9, 9]);
    let loaded = read_bincode(Some(&bytes)).unwrap();
    assert_eq!(lookup(loaded.urls, "/a"), Some("x".to_string()));
}

/// The BMP file for some rows of pixels, built field by field.
fn expected_bmp(rows: &[Vec<bool>]) -> Vec<u8> {
    let height = rows.len() as u32;
    let width = rows[0].len() as u32;
    let bytes_per_row = (width + 7) / 8;
    let padding = (4 - bytes_per_row % 4) % 4;
    let data_size = (bytes_per_row + padding) * height;
    let mut out = vec![b'B', b'M'];
    out.extend_from_slice(&(62 + data_size).to_le_bytes());
    out.extend_from_slice(&[0, 0, 0, 0]);
    out.extend_from_slice(&62u32.to_le_bytes());
    out.extend_from_slice(&40u32.to_le_bytes());
    out.extend_from_slice(&width.to_le_bytes());
    out.extend_from_slice(&height.to_le_bytes());
    out.extend_from_slice(&1u16.to_le_bytes());
    out.extend_from_slice(&1u16.to_le_bytes());
    out.extend_from_slice(&0u32.to_le_bytes());
    out.extend_from_slice(&data_size.to_le_bytes());
    out.extend_from_slice(&512u32.to_le_bytes());
    out.extend_from_slice(&512u32.to_le_bytes());
    out.extend_from_slice(&2u32.to_le_bytes());
    out.extend_from_slice(&2u32.to_le_bytes());
    out.extend_from_slice(&0x00ff_ffffu32.to_le_bytes());
    out.extend_from_slice(&0u32.to_le_bytes());
    for row in rows.iter().rev() {
        for k in 0..bytes_per_row as usize {
            let mut byte = 0u8;
            for b in 0..8 {
                if row.get(8 * k + b) == Some(&true) {
                    byte |= 128 >> b;
                }
            }
            out.push(byte);
        }
        out.extend(std::iter::repeat(0u8).take(padding as usize));
    }
    out
}

#[test]
fn qr_bitmap_layout() {
    let code = qr_code::QrCode::new("https://example.com".as_bytes()).unwrap();
    let width = code.width();
    let rows: Vec<Vec<bool>> = code.to_vec().chunks(width).map(|r| r.to_vec()).collect();
    assert_eq!(qrgen("https://example.com".to_string()).unwrap(), expected_bmp(&rows));
}

#[test]
fn bitmap_layout_with_padding() {
    let rows: Vec<Vec<bool>> = (0..3).map(|i| (0..10).map(|j| (i + j) % 3 == 0).collect()).collect();
    let image = qr_code::bmp_monochrome::Bmp::new(rows.clone()).unwrap();
    let mut out = Vec::new();
    image.write(&mut out).unwrap();
    assert_eq!(out, expected_bmp(&rows));
}

#[test]
fn header_values() {
    assert!(header_value_ok("https://example.com/a?b=c"));
    assert!(header_value_ok("tab\there"));
    assert!(header_value_ok("caf\u{e9}"));
    assert!(!header_value_ok("line\nbreak"));
    assert!(!header_value_ok("del\u{7f}"));
}

#[test]
fn shrunk_table_over_longer_file_reads_back() {
    let long = save_bincode(&table_of(&[("/a", "one"), ("/b", "two"), ("/c", "three")])).unwrap();
    let short = save_bincode(&table_of(&[("/z", "zz")])).unwrap();
    let mut file = long.clone();
    file[..short.len()].copy_from_slice(&short);
    let loaded = read_bincode(Some(&file)).unwrap();
    let state = AppState { urls: loaded.urls, tokens: dashmap::DashSet::new(), is_init: false };
    assert_eq!(state.destination("/z"), Some("zz".to_string()));
    assert_eq!(state.destination("/a"), None);
}
