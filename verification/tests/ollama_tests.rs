use whisp_core::llm::ollama::api::{
    endpoint_url, generate_failed, ApiEndpoint, generate_request, json_lines, merge_generate_responses, models_from_tags, pull_failed,
    reported_version, GenerateResponse, TagModel,
};
use whisp_core::llm::ollama::download::{
    archived_binary, binary_missing, check_unpackable, unpack_binary, ArchiveListing, BinarySource, no_release_for_platform, download_error, is_archived_binary, needs_exec_permission, platform_download_url,
    ArchiveType, DownloadFailure, TargetArch, TargetOs,
};
use whisp_core::llm::ollama::process::{
    binary_file_name, data_entry_name, graceful_shutdown, DataEntry, health_timeout_error, health_wait_after_probe, health_wait_continues,
    managed_listen_address, managed_port, pid_file_contents, probes_stale_process, process_error, shutdown_after_check,
    shutdown_wait_continues, stale_kill_plan, stale_pid, ExitCheck, HealthWaitStep, KillStep, ProcessFailure,
};
use whisp_core::llm::ollama::{backend_name, external_host_address, health_status, setup_plan, HealthStatus, OllamaEndpoint, SetupPlan};
use whisp_core::llm::{suggestion_params, LlmError};

#[test]
fn generate_request_from_suggestion() {
    let r = generate_request(suggestion_params("hi", None));
    assert!(r.stream);
    assert_eq!(r.num_predict, 200);
    assert_eq!(r.stop, Some(vec!["\n\n".to_string()]));
    assert_eq!(r.model, "");
    assert!(r.system.is_some());
}

#[test]
fn generate_request_without_stops_and_wrapped_limit() {
    let mut p = suggestion_params("hi", None);
    p.stop_sequences.clear();
    p.max_tokens = u32::MAX;
    let r = generate_request(p);
    assert_eq!(r.stop, None);
    assert_eq!(r.num_predict, -1);
    let mut p = suggestion_params("hi", None);
    p.max_tokens = i32::MAX as u32;
    assert_eq!(generate_request(p).num_predict, i32::MAX);
}

#[test]
fn json_lines_splits_and_skips_empty() {
    let lines = json_lines(b"{\"a\":1}\r\n\n{\"b\":2}\n");
    assert_eq!(lines, vec!["{\"a\":1}".to_string(), "{\"b\":2}".to_string()]);
    assert_eq!(json_lines(b""), Vec::<String>::new());
    assert_eq!(json_lines(b"tail"), vec!["tail".to_string()]);
    assert_eq!(json_lines(b"a\r"), vec!["a\r".to_string()]);
}

#[test]
fn json_lines_decodes_leniently() {
    let lines = json_lines(&[b'x', 0xFF, b'y']);
    assert_eq!(lines, vec!["x\u{FFFD}y".to_string()]);
}

#[test]
fn merged_chunk_joins_parsed_lines() {
    let parsed = vec![
        Some(GenerateResponse { response: "Hel".to_string(), done: false }),
        None,
        Some(GenerateResponse { response: "lo".to_string(), done: true }),
        None,
    ];
    let c = merge_generate_responses(parsed);
    assert_eq!(c.text, "Hello");
    assert!(c.done);
    let c = merge_generate_responses(vec![None]);
    assert_eq!(c.text, "");
    assert!(!c.done);
}

#[test]
fn model_list_maps_fields() {
    let tags = vec![TagModel { name: "qwen3:0.6b".into(), size: 523, modified_at: "2024-01-01".into() }];
    let m = models_from_tags(&tags);
    assert_eq!(m.len(), 1);
    assert_eq!(m[0].name, "qwen3:0.6b");
    assert_eq!(m[0].size_bytes, 523);
    assert_eq!(m[0].modified_at, "2024-01-01");
}

#[test]
fn version_defaults_to_unknown() {
    assert_eq!(reported_version(Some("0.5.1")), "0.5.1");
    assert_eq!(reported_version(None), "unknown");
}

#[test]
fn api_error_and_url_text() {
    assert!(matches!(pull_failed("404 Not Found"), LlmError::DownloadError(m) if m == "Pull failed with status: 404 Not Found"));
    assert!(matches!(generate_failed("boom"), LlmError::InferenceError(m) if m == "Generate failed: boom"));
    assert_eq!(endpoint_url("http://127.0.0.1:11434", ApiEndpoint::Version), "http://127.0.0.1:11434/api/version");
    assert_eq!(endpoint_url("h", ApiEndpoint::Tags), "h/api/tags");
    assert_eq!(endpoint_url("h", ApiEndpoint::Pull), "h/api/pull");
    assert_eq!(endpoint_url("h", ApiEndpoint::Generate), "h/api/generate");
}

#[test]
fn release_per_platform() {
    assert_eq!(platform_download_url(TargetOs::MacOs, TargetArch::Aarch64), Some(("https://ollama.com/download/ollama-darwin.tgz", ArchiveType::TarGz)));
    assert_eq!(platform_download_url(TargetOs::Linux, TargetArch::X86_64), Some(("https://ollama.com/download/ollama-linux-amd64.tar.zst", ArchiveType::TarZst)));
    assert_eq!(platform_download_url(TargetOs::Linux, TargetArch::Aarch64), Some(("https://ollama.com/download/ollama-linux-arm64.tar.zst", ArchiveType::TarZst)));
    assert_eq!(platform_download_url(TargetOs::Windows, TargetArch::X86_64), Some(("https://ollama.com/download/ollama-windows-amd64.zip", ArchiveType::Zip)));
    assert_eq!(platform_download_url(TargetOs::Windows, TargetArch::Aarch64), Some(("https://ollama.com/download/ollama-windows-arm64.zip", ArchiveType::Zip)));
    assert_eq!(platform_download_url(TargetOs::Linux, TargetArch::Other), None);
    assert_eq!(platform_download_url(TargetOs::Other, TargetArch::X86_64), None);
}

#[test]
fn archive_support_per_platform() {
    assert!(check_unpackable(TargetOs::MacOs, ArchiveType::TarGz).is_ok());
    assert!(check_unpackable(TargetOs::Linux, ArchiveType::TarZst).is_ok());
    assert!(check_unpackable(TargetOs::Windows, ArchiveType::Zip).is_ok());
    assert!(matches!(check_unpackable(TargetOs::MacOs, ArchiveType::TarZst), Err(LlmError::DownloadError(m)) if m == "tar.zst extraction only supported on Linux"));
    assert!(matches!(check_unpackable(TargetOs::Linux, ArchiveType::Zip), Err(LlmError::DownloadError(m)) if m == "Zip extraction only supported on Windows"));
}

#[test]
fn archive_entries_and_errors() {
    assert!(is_archived_binary(Some("ollama"), ArchiveType::TarGz));
    assert!(!is_archived_binary(Some("ollama.exe"), ArchiveType::TarZst));
    assert!(is_archived_binary(Some("ollama.exe"), ArchiveType::Zip));
    assert!(!is_archived_binary(None, ArchiveType::Zip));
    assert!(matches!(binary_missing(ArchiveType::TarGz), LlmError::DownloadError(m) if m == "Ollama binary not found in archive"));
    assert!(matches!(binary_missing(ArchiveType::Zip), LlmError::DownloadError(m) if m == "ollama.exe not found in archive"));
    assert!(matches!(download_error(DownloadFailure::BadStatus, "404"), LlmError::DownloadError(m) if m == "Download failed with status: 404"));
    assert!(matches!(download_error(DownloadFailure::CreateBinDir, "denied"), LlmError::DownloadError(m) if m == "Failed to create bin dir: denied"));
    assert!(matches!(no_release_for_platform(), LlmError::DownloadError(m) if m == "no Ollama release for this platform"));
    assert!(needs_exec_permission(TargetOs::Linux));
    assert!(!needs_exec_permission(TargetOs::Windows));
}

#[test]
fn stale_pid_parsing() {
    assert_eq!(stale_pid(" 1234\n"), Some(1234));
    assert_eq!(stale_pid("+7"), Some(7));
    assert_eq!(stale_pid("4294967295"), Some(u32::MAX));
    assert_eq!(stale_pid("4294967296"), None);
    assert_eq!(stale_pid("12a"), None);
    assert_eq!(stale_pid(""), None);
    assert_eq!(stale_pid("+"), None);
    assert_eq!(stale_pid("-1"), None);
    assert_eq!(stale_pid("\u{3000}42\t"), Some(42));
}

#[test]
fn process_text_and_plans() {
    assert_eq!(managed_port(), 11435);
    assert_eq!(managed_listen_address(), "127.0.0.1:11435");
    assert_eq!(pid_file_contents(4321), "4321");
    assert_eq!(pid_file_contents(0), "0");
    assert_eq!(data_entry_name(DataEntry::BinDir), "bin");
    assert_eq!(data_entry_name(DataEntry::ModelsDir), "models");
    assert_eq!(data_entry_name(DataEntry::PidFile), "ollama.pid");
    assert_eq!(binary_file_name(TargetOs::Windows), "ollama.exe");
    assert_eq!(binary_file_name(TargetOs::Linux), "ollama");
    assert!(probes_stale_process(TargetOs::MacOs));
    assert!(!probes_stale_process(TargetOs::Windows));
    assert_eq!(stale_kill_plan(9, true), vec![KillStep::Terminate(9), KillStep::Sleep(2000), KillStep::ForceKill(9)]);
    assert!(stale_kill_plan(9, false).is_empty());
}

#[test]
fn health_and_shutdown_decisions() {
    assert!(health_wait_continues(29_999));
    assert!(!health_wait_continues(30_000));
    assert_eq!(health_wait_after_probe(true), HealthWaitStep::Ready);
    assert_eq!(health_wait_after_probe(false), HealthWaitStep::Retry(100));
    assert!(matches!(health_timeout_error(), LlmError::ProcessError(m) if m == "Ollama failed to start within 30 seconds"));
    assert!(graceful_shutdown(TargetOs::Linux, Some(3)));
    assert!(!graceful_shutdown(TargetOs::Linux, None));
    assert!(!graceful_shutdown(TargetOs::Windows, Some(3)));
    assert!(shutdown_wait_continues(4_999));
    assert!(!shutdown_wait_continues(5_000));
    assert_eq!(shutdown_after_check(ExitCheck::Running), Some(200));
    assert_eq!(shutdown_after_check(ExitCheck::Exited), None);
    assert_eq!(shutdown_after_check(ExitCheck::Failed), None);
    assert!(matches!(process_error(ProcessFailure::Spawn, "nope"), LlmError::ProcessError(m) if m == "Failed to spawn Ollama: nope"));
    assert!(matches!(process_error(ProcessFailure::CreateModelsDir, "ro"), LlmError::ProcessError(m) if m == "Failed to create models dir: ro"));
}

#[test]
fn backend_setup_and_health() {
    assert_eq!(setup_plan(true, false), SetupPlan::UseExternal);
    assert_eq!(setup_plan(false, false), SetupPlan::DownloadThenManage);
    assert_eq!(setup_plan(false, true), SetupPlan::Manage);
    assert_eq!(health_status(true, false), HealthStatus::Ready);
    assert_eq!(health_status(false, true), HealthStatus::Stopped);
    assert_eq!(health_status(false, false), HealthStatus::NotInstalled);
    assert_eq!(backend_name(), "Ollama");
    assert_eq!(external_host_address(), "http://127.0.0.1:11434");
}

#[test]
fn endpoint_addresses() {
    let mut e = OllamaEndpoint::new();
    assert_eq!(e.host(), "");
    assert!(!e.spawns_on_start());
    e.use_external();
    assert_eq!(e.host(), "http://127.0.0.1:11434");
    assert!(!e.shuts_down_on_stop());
    e.use_managed(managed_port());
    assert_eq!(e.host(), "http://127.0.0.1:11435");
    assert!(e.spawns_on_start());
    assert!(e.shuts_down_on_stop());
}

fn tar_bytes(entries: &[(&str, &[u8])]) -> Vec<u8> {
    let mut builder = tar::Builder::new(Vec::new());
    for (path, data) in entries {
        let mut header = tar::Header::new_gnu();
        header.set_size(data.len() as u64);
        header.set_mode(0o755);
        header.set_cksum();
        builder.append_data(&mut header, path, *data).expect("append");
    }
    builder.into_inner().expect("tar")
}

fn gzip(data: &[u8]) -> Vec<u8> {
    let mut enc = flate2::write::GzEncoder::new(Vec::new(), flate2::Compression::default());
    std::io::Write::write_all(&mut enc, data).expect("gzip");
    enc.finish().expect("gzip")
}

fn zip_bytes(entries: &[(&str, &[u8])]) -> Vec<u8> {
    let mut w = zip::ZipWriter::new(std::io::Cursor::new(Vec::new()));
    for (path, data) in entries {
        w.start_file(*path, zip::write::SimpleFileOptions::default()).expect("start");
        std::io::Write::write_all(&mut w, data).expect("write");
    }
    w.finish().expect("zip").into_inner()
}

fn listing(names: &[Option<&str>], failure: Option<(DownloadFailure, &str)>) -> ArchiveListing {
    ArchiveListing {
        names: names.iter().map(|n| n.map(|s| s.to_string())).collect(),
        failure: failure.map(|(step, m)| (step, m.to_string())),
    }
}

fn download_message(r: Result<BinarySource, LlmError>) -> String {
    match r {
        Err(LlmError::DownloadError(m)) => m,
        other => panic!("expected a download error, got {:?}", other.ok()),
    }
}

#[test]
fn first_binary_entry_is_chosen() {
    let l = listing(&[None, Some("README"), Some("ollama"), Some("ollama")], Some((DownloadFailure::ArchiveEntry, "late")));
    assert_eq!(archived_binary(ArchiveType::TarGz, &l).ok(), Some(2));
    let l = listing(&[Some("ollama"), Some("ollama.exe")], None);
    assert_eq!(archived_binary(ArchiveType::Zip, &l).ok(), Some(1));
}

#[test]
fn listing_failure_before_the_binary_is_reported() {
    let l = listing(&[Some("lib"), None], Some((DownloadFailure::EntryPath, "bad path")));
    assert!(matches!(archived_binary(ArchiveType::TarZst, &l), Err(LlmError::DownloadError(m)) if m == "Path error: bad path"));
}

#[test]
fn complete_listing_without_binary_is_missing() {
    let l = listing(&[Some("lib"), Some("ollama.exe")], None);
    assert!(matches!(archived_binary(ArchiveType::TarGz, &l), Err(LlmError::DownloadError(m)) if m == "Ollama binary not found in archive"));
    let l = listing(&[], None);
    assert!(matches!(archived_binary(ArchiveType::Zip, &l), Err(LlmError::DownloadError(m)) if m == "ollama.exe not found in archive"));
}

#[test]
fn binary_entry_is_found_in_a_gzip_tarball() {
    let data = gzip(&tar_bytes(&[("lib/ollama/libggml.so", b"library"), ("bin/ollama", b"\x7fELF server")]));
    let source = unpack_binary(TargetOs::MacOs, ArchiveType::TarGz, &data).ok().expect("unpacked");
    assert!(matches!(source, BinarySource::TarEntry(1)));
}

#[test]
fn binary_entry_is_found_in_a_zstd_tarball_on_linux() {
    let tarball = tar_bytes(&[("bin/ollama", b"server bytes"), ("lib/other", b"x")]);
    let data = zstd::encode_all(&tarball[..], 0).expect("zstd");
    let source = unpack_binary(TargetOs::Linux, ArchiveType::TarZst, &data).ok().expect("unpacked");
    assert!(matches!(source, BinarySource::TarEntry(0)));
    let refused = download_message(unpack_binary(TargetOs::MacOs, ArchiveType::TarZst, &data));
    assert_eq!(refused, "tar.zst extraction only supported on Linux");
}

#[test]
fn binary_is_unpacked_from_a_zip_on_windows() {
    let data = zip_bytes(&[("lib/ollama.dll", b"dll"), ("ollama.exe", b"MZ server")]);
    let source = unpack_binary(TargetOs::Windows, ArchiveType::Zip, &data).ok().expect("unpacked");
    match source {
        BinarySource::Bytes(b) => assert_eq!(b, b"MZ server".to_vec()),
        other => panic!("expected bytes, got {:?}", other),
    }
    let refused = download_message(unpack_binary(TargetOs::Linux, ArchiveType::Zip, &data));
    assert_eq!(refused, "Zip extraction only supported on Windows");
}

#[test]
fn tarball_without_binary_is_refused() {
    let data = gzip(&tar_bytes(&[("README", b"read me")]));
    let m = download_message(unpack_binary(TargetOs::Linux, ArchiveType::TarGz, &data));
    assert_eq!(m, "Ollama binary not found in archive");
}

#[test]
fn corrupt_archives_report_the_failed_step() {
    let garbage = b"not an archive at all".to_vec();
    let m = download_message(unpack_binary(TargetOs::Linux, ArchiveType::TarGz, &garbage));
    assert!(m.starts_with("Archive entry error: "), "{}", m);
    let m = download_message(unpack_binary(TargetOs::Windows, ArchiveType::Zip, &garbage));
    assert!(m.starts_with("Zip error: "), "{}", m);
    let m = download_message(unpack_binary(TargetOs::Linux, ArchiveType::TarZst, &garbage));
    assert!(m.starts_with("Archive entry error: ") || m.starts_with("Zstd decode error: "), "{}", m);
}
