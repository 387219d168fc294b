use wasm_offload::classify::{
    classify, has_native_header, is_executable_mode, native_verdict, select_executable,
    Classification, ClassificationCache, EntryFile, NativeVerdict, UnsupportedReason,
};

fn refused(reason: &str) -> Result<(), String> {
    Err(reason.to_string())
}

#[test]
fn elf_header_is_native_whatever_follows() {
    let short = EntryFile::Head(vec![0x7f, 0x45, 0x4c, 0x46]);
    let long = EntryFile::Head(vec![0x7f, 0x45, 0x4c, 0x46, 2, 1, 1, 0, 0, 0, 0xff]);
    assert_eq!(classify(&short, &Ok(())), Classification::Native);
    assert_eq!(classify(&long, &refused("no")), Classification::Native);
}

#[test]
fn shebang_is_native() {
    let f = EntryFile::Head(b"#!/bin/sh\necho hi\n".to_vec());
    assert_eq!(classify(&f, &refused("no")), Classification::Native);
    assert!(has_native_header(b"#!/x"));
}

#[test]
fn short_file_is_unsupported_not_wasm() {
    let f = EntryFile::Head(vec![0x7f, 0x45, 0x4c]);
    assert_eq!(
        classify(&f, &Ok(())),
        Classification::Unsupported(UnsupportedReason::HeaderTooShort)
    );
    let bang = EntryFile::Head(b"#!".to_vec());
    assert_eq!(
        classify(&bang, &Ok(())),
        Classification::Unsupported(UnsupportedReason::HeaderTooShort)
    );
}

#[test]
fn wasm_header_asks_the_engine() {
    let f = EntryFile::Head(vec![0x00, 0x61, 0x73, 0x6d, 1, 0, 0, 0]);
    assert_eq!(native_verdict(&f), NativeVerdict::AskEngine);
    assert_eq!(classify(&f, &Ok(())), Classification::Wasm);
    assert_eq!(
        classify(&f, &refused("bad module")),
        Classification::Unsupported(UnsupportedReason::EngineRefused("bad module".to_string()))
    );
}

#[test]
fn layers_skip_the_native_check() {
    assert_eq!(classify(&EntryFile::Layers, &Ok(())), Classification::Wasm);
    assert_eq!(
        classify(&EntryFile::Layers, &refused("no")),
        Classification::Unsupported(UnsupportedReason::EngineRefused("no".to_string()))
    );
}

#[test]
fn missing_entry_points_are_unsupported() {
    assert_eq!(
        classify(&EntryFile::NoArg0, &Ok(())),
        Classification::Unsupported(UnsupportedReason::NoEntrypoint)
    );
    assert_eq!(
        classify(&EntryFile::NotFound, &Ok(())),
        Classification::Unsupported(UnsupportedReason::EntrypointNotFound)
    );
    assert_eq!(
        classify(&EntryFile::Unreadable("denied".to_string()), &Ok(())),
        Classification::Unsupported(UnsupportedReason::ReadFailed("denied".to_string()))
    );
}

#[test]
fn any_execute_bit_qualifies() {
    assert!(is_executable_mode(0o100));
    assert!(is_executable_mode(0o010));
    assert!(is_executable_mode(0o001));
    assert!(is_executable_mode(0o755));
    assert!(!is_executable_mode(0o644));
    assert!(!is_executable_mode(0));
}

#[test]
fn first_executable_candidate_is_selected() {
    let modes = vec![None, Some(0o644), Some(0o700), Some(0o755)];
    assert_eq!(select_executable(&modes), Some(2));
    assert_eq!(select_executable(&vec![None, Some(0o600)]), None);
    assert_eq!(select_executable(&Vec::new()), None);
}

#[test]
fn classification_is_decided_once() {
    let mut cache = ClassificationCache::new();
    assert!(cache.needs_probe());
    assert_eq!(cache.get(), None);
    assert_eq!(cache.decide(Classification::Native), Classification::Native);
    assert!(!cache.needs_probe());
    assert_eq!(cache.decide(Classification::Wasm), Classification::Native);
    assert_eq!(cache.get(), Some(Classification::Native));
}
