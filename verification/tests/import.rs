use jstar::import::{import_record, ImportRecord, Module};

#[test]
fn source_module_holds_source_and_path() {
    let module: Module<u32> = Module::source("var flag = 1".to_owned(), "<test>".to_owned());
    match module {
        Module::Source { src, path, reg } => {
            assert_eq!(src.as_bytes(), b"var flag = 1");
            assert_eq!(path.as_bytes(), b"<test>");
            assert_eq!(reg, None);
        }
        Module::Binary { .. } => panic!("a source module was asked for"),
    }
}

#[test]
fn source_module_with_registrations() {
    let module = Module::source_with_reg("var flag = 1".to_owned(), "<test>".to_owned(), 7u32);
    match module {
        Module::Source { src, path, reg } => {
            assert_eq!(src.as_bytes(), b"var flag = 1");
            assert_eq!(path.as_bytes(), b"<test>");
            assert_eq!(reg, Some(7));
        }
        Module::Binary { .. } => panic!("a source module was asked for"),
    }
}

#[test]
fn binary_module_holds_code_and_path() {
    let module: Module<u32> = Module::binary(vec![0xb5, 0x00, 0x4a, 0x00], "<test>".to_owned());
    match module {
        Module::Binary { code, path, reg } => {
            assert_eq!(code, vec![0xb5, 0x00, 0x4a, 0x00]);
            assert_eq!(path.as_bytes(), b"<test>");
            assert_eq!(reg, None);
        }
        Module::Source { .. } => panic!("a binary module was asked for"),
    }
}

#[test]
fn binary_module_with_registrations() {
    let module = Module::binary_with_reg(vec![1, 2, 3], "<bin>".to_owned(), "table");
    match module {
        Module::Binary { code, path, reg } => {
            assert_eq!(code, vec![1, 2, 3]);
            assert_eq!(path.as_bytes(), b"<bin>");
            assert_eq!(reg, Some("table"));
        }
        Module::Source { .. } => panic!("a binary module was asked for"),
    }
}

#[test]
fn default_record_is_empty() {
    let record: ImportRecord<u32> = ImportRecord::default();
    assert!(record.code.is_none());
    assert_eq!(record.code_len, 0);
    assert!(record.path.is_none());
    assert!(record.reg.is_none());
    assert!(!record.finalize);
}

#[test]
fn unresolved_import_gives_the_empty_record() {
    let record: ImportRecord<u32> = import_record(None);
    assert!(record.code.is_none());
    assert_eq!(record.code_len, 0);
    assert!(record.path.is_none());
    assert!(record.reg.is_none());
    assert!(!record.finalize);
}

#[test]
fn source_import_gives_the_source_without_terminator() {
    let module: Module<u32> = Module::source("var flag = 1".to_owned(), "<test>".to_owned());
    let record = import_record(Some(module));
    assert_eq!(record.code, Some(b"var flag = 1".to_vec()));
    assert_eq!(record.code_len, 12);
    assert_eq!(record.path.unwrap().as_bytes(), b"<test>");
    assert_eq!(record.reg, None);
    assert!(record.finalize);
}

#[test]
fn binary_import_gives_the_bytecode_in_full() {
    let module = Module::binary_with_reg(vec![0, 1, 0, 2, 0], "<test>".to_owned(), 9u32);
    let record = import_record(Some(module));
    assert_eq!(record.code, Some(vec![0, 1, 0, 2, 0]));
    assert_eq!(record.code_len, 5);
    assert_eq!(record.path.unwrap().as_bytes(), b"<test>");
    assert_eq!(record.reg, Some(9));
    assert!(record.finalize);
}

#[test]
fn empty_source_is_still_a_resolved_module() {
    let module: Module<u32> = Module::source("".to_owned(), "".to_owned());
    let record = import_record(Some(module));
    assert_eq!(record.code, Some(vec![]));
    assert_eq!(record.code_len, 0);
    assert_eq!(record.path.unwrap().as_bytes(), b"");
    assert!(record.finalize);
}
