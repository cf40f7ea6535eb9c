use apix::update::{
    archive_name, detect_target, download_url, is_up_to_date, latest_release_url, program_entry, release_version,
};

#[test]
fn release_version_strips_leading_v() {
    assert_eq!(release_version("v1.2.3"), "1.2.3");
    assert_eq!(release_version("vv0.1.0"), "0.1.0");
    assert_eq!(release_version("2.0.0"), "2.0.0");
}

#[test]
fn up_to_date_compares_versions() {
    assert!(is_up_to_date("v0.1.0", "0.1.0"));
    assert!(!is_up_to_date("v0.2.0", "0.1.0"));
}

#[test]
fn detect_target_known_platforms() {
    assert_eq!(detect_target("linux", "x86_64"), Some("x86_64-unknown-linux-gnu"));
    assert_eq!(detect_target("macos", "aarch64"), Some("aarch64-apple-darwin"));
    assert_eq!(detect_target("windows", "x86_64"), Some("x86_64-pc-windows-msvc"));
    assert_eq!(detect_target("linux", "arm"), None);
}

#[test]
fn release_addresses() {
    assert_eq!(latest_release_url(), "https://api.github.com/repos/CianusDev/apix/releases/latest");
    assert_eq!(
        archive_name("v1.0.0", "x86_64-unknown-linux-gnu", false),
        "apix-v1.0.0-x86_64-unknown-linux-gnu.tar.gz"
    );
    assert_eq!(archive_name("v1.0.0", "x86_64-pc-windows-msvc", true), "apix-v1.0.0-x86_64-pc-windows-msvc.zip");
    assert_eq!(
        download_url("v1.0.0", "apix-v1.0.0-aarch64-apple-darwin.tar.gz"),
        "https://github.com/CianusDev/apix/releases/download/v1.0.0/apix-v1.0.0-aarch64-apple-darwin.tar.gz"
    );
}

#[test]
fn program_entry_by_platform() {
    assert!(program_entry("apix", false));
    assert!(!program_entry("bin/apix", false));
    assert!(program_entry("dist/apix.exe", true));
    assert!(!program_entry("apix", true));
}

fn tar_gz(entries: &[(&str, &[u8])]) -> Vec<u8> {
    let encoder = flate2::write::GzEncoder::new(Vec::new(), flate2::Compression::default());
    let mut builder = tar::Builder::new(encoder);
    for (path, data) in entries {
        let mut header = tar::Header::new_gnu();
        header.set_size(data.len() as u64);
        header.set_mode(0o755);
        builder.append_data(&mut header, path, *data).unwrap();
    }
    builder.into_inner().unwrap().finish().unwrap()
}

fn zip_archive(entries: &[(&str, &[u8])]) -> Vec<u8> {
    let mut writer = zip::ZipWriter::new(std::io::Cursor::new(Vec::new()));
    for (name, data) in entries {
        writer.start_file(*name, zip::write::SimpleFileOptions::default()).unwrap();
        std::io::Write::write_all(&mut writer, data).unwrap();
    }
    writer.finish().unwrap().into_inner()
}

#[test]
fn extract_program_from_tar_gz() {
    let archive = tar_gz(&[("README.md", b"readme"), ("bin/apix", b"first"), ("apix", b"second")]);
    assert_eq!(apix::update::extract_program_tar_gz(&archive), Ok(Some(b"first".to_vec())));
    let without = tar_gz(&[("README.md", b"readme"), ("apix-old", b"x")]);
    assert_eq!(apix::update::extract_program_tar_gz(&without), Ok(None));
    assert!(apix::update::extract_program_tar_gz(b"not an archive").is_err());
}

#[test]
fn extract_program_from_zip() {
    let archive = zip_archive(&[("README.md", b"readme"), ("dist/apix.exe", b"program"), ("apix.exe", b"later")]);
    assert_eq!(apix::update::extract_program_zip(&archive), Ok(Some(b"program".to_vec())));
    let without = zip_archive(&[("apix", b"unix")]);
    assert_eq!(apix::update::extract_program_zip(&without), Ok(None));
    assert!(apix::update::extract_program_zip(b"not an archive").is_err());
}

#[test]
fn tar_paths_name_the_program_as_unix_paths_do() {
    assert!(apix::update::tar_entry_is_program(&b"apix".to_vec()));
    assert!(apix::update::tar_entry_is_program(&b"dist/bin/apix".to_vec()));
    assert!(apix::update::tar_entry_is_program(&b"./apix".to_vec()));
    assert!(apix::update::tar_entry_is_program(&b"dist/apix/".to_vec()));
    assert!(apix::update::tar_entry_is_program(&b"dist/apix/.".to_vec()));
    assert!(!apix::update::tar_entry_is_program(&b"dist\\apix".to_vec()));
    assert!(!apix::update::tar_entry_is_program(&b"apix/..".to_vec()));
    assert!(!apix::update::tar_entry_is_program(&b"apix.exe".to_vec()));
    assert!(!apix::update::tar_entry_is_program(&b"/".to_vec()));
    assert!(!apix::update::tar_entry_is_program(&b"".to_vec()));
}

#[test]
fn tar_program_is_found_after_other_entries() {
    let archive = tar_gz(&[("docs/README.md", b"readme"), ("dist/apix", b"binary")]);
    assert_eq!(apix::update::extract_program_tar_gz(&archive), Ok(Some(b"binary".to_vec())));
}
