use msfs::sys::{
    FS_OBJECT_ID_USER_AIRCRAFT, FS_OBJECT_ID_USER_AVATAR, FS_OBJECT_ID_USER_CURRENT,
    FS_VAR_ERROR_FAIL, FS_VAR_ERROR_NONE, FS_VAR_ERROR_NOT_SUPPORTED, FS_VAR_PARAM_TYPE_CRC,
    FS_VAR_PARAM_TYPE_DOUBLE, FS_VAR_PARAM_TYPE_INTEGER, FS_VAR_PARAM_TYPE_STRING,
};
use msfs::utils::{fs_create_param_array, make_variant, FsParamArg, FsParamError, FsVarParamVariant};
use msfs::var_struct::{
    infer_kind_from_name, is_whitespace, parse_kind_str, parse_target_str, resolve_field,
    target_id, to_ascii_uppercase, Accessor, FieldError, VarKindSel, VarTargetSel,
};
use msfs::vars::a_var::{AVar, AVarKind};
use msfs::vars::l_var::{LVar, LVarKind};
use msfs::vars::{check, empty_param_array, UnitId, VarError, VarKind, VarParamArray1};

#[test]
fn variants_follow_the_format_character() {
    assert_eq!(
        make_variant('c', FsParamArg::Crc(7)),
        Ok(FsVarParamVariant { type_: FS_VAR_PARAM_TYPE_CRC, value: 7 })
    );
    assert_eq!(
        make_variant('s', FsParamArg::Str(0x1000)),
        Ok(FsVarParamVariant { type_: FS_VAR_PARAM_TYPE_STRING, value: 0x1000 })
    );
    assert_eq!(
        make_variant('i', FsParamArg::Index(2)),
        Ok(FsVarParamVariant { type_: FS_VAR_PARAM_TYPE_INTEGER, value: 2 })
    );
    let bits = 1.5f64.to_bits();
    assert_eq!(
        make_variant('f', FsParamArg::Double(bits)),
        Ok(FsVarParamVariant { type_: FS_VAR_PARAM_TYPE_DOUBLE, value: bits })
    );
    assert_eq!(make_variant('i', FsParamArg::Crc(7)), Err('i'));
    assert_eq!(make_variant('x', FsParamArg::Index(7)), Err('x'));
    assert_eq!(make_variant('c', FsParamArg::Double(0)), Err('c'));
    assert_eq!(make_variant('f', FsParamArg::Str(1)), Err('f'));
}

#[test]
fn param_array_is_built_in_order() {
    let args = [FsParamArg::Index(1), FsParamArg::Crc(9), FsParamArg::Double(3), FsParamArg::Str(4)];
    let array = fs_create_param_array("icfs", &args).unwrap();
    assert_eq!(array.size(), 4);
    assert_eq!(
        array.as_raw(),
        &[
            FsVarParamVariant { type_: FS_VAR_PARAM_TYPE_INTEGER, value: 1 },
            FsVarParamVariant { type_: FS_VAR_PARAM_TYPE_CRC, value: 9 },
            FsVarParamVariant { type_: FS_VAR_PARAM_TYPE_DOUBLE, value: 3 },
            FsVarParamVariant { type_: FS_VAR_PARAM_TYPE_STRING, value: 4 },
        ]
    );
    let none = fs_create_param_array("", &[]).unwrap();
    assert_eq!(none.size(), 0);
    assert!(none.as_raw().is_empty());
    assert!(empty_param_array().as_raw().is_empty());
}

#[test]
fn param_array_errors() {
    match fs_create_param_array("ii", &[FsParamArg::Index(1)]) {
        Err(FsParamError::ArgCountMismatch { fmt_len, args_len }) => {
            assert_eq!((fmt_len, args_len), (2, 1));
        }
        _ => panic!("a count mismatch was accepted"),
    }
    match fs_create_param_array("é", &[FsParamArg::Index(1)]) {
        Err(FsParamError::UnknonwnError { msg }) => assert_eq!(msg, "é"),
        _ => panic!("an unknown format character was accepted"),
    }
    match fs_create_param_array("icx", &[FsParamArg::Index(1), FsParamArg::Index(2), FsParamArg::Index(3)]) {
        Err(FsParamError::UnknonwnError { msg }) => assert_eq!(msg, "c"),
        _ => panic!("a mismatch was accepted"),
    }
}

#[test]
fn var_codes_and_kinds() {
    assert_eq!(check(FS_VAR_ERROR_NONE), Ok(()));
    assert_eq!(check(FS_VAR_ERROR_FAIL), Err(VarError::Fs(FS_VAR_ERROR_FAIL)));
    assert_eq!(check(FS_VAR_ERROR_NOT_SUPPORTED), Err(VarError::Fs(FS_VAR_ERROR_NOT_SUPPORTED)));
    assert!(AVarKind::can_set());
    assert!(LVarKind::can_set());
    assert_eq!(AVarKind::default_target(), FS_OBJECT_ID_USER_AIRCRAFT);
    assert_eq!(LVarKind::default_target(), FS_OBJECT_ID_USER_AIRCRAFT);
    let var = LVar::from_ids(12, UnitId(3));
    assert_eq!(var.raw_id(), 12);
    assert_eq!(var.unit(), UnitId(3));
    assert_eq!(var.set_with(), Ok(()));
    let copy = var;
    assert_eq!(copy.raw_id(), var.raw_id());
}

#[test]
fn var_names_are_encoded_name_first() {
    let names = AVar::new("A:AIRSPEED INDICATED", "Knots").unwrap();
    assert_eq!(names.name.as_bytes(), b"A:AIRSPEED INDICATED");
    assert_eq!(names.unit.as_bytes(), b"Knots");
    match AVar::new("A\0", "\0") {
        Err(VarError::Nul(e)) => assert_eq!(e.nul_position(), 1),
        _ => panic!("a name with a zero byte was accepted"),
    }
    match LVar::new("L:X", "Bo\0ol") {
        Err(VarError::Nul(e)) => assert_eq!(e.nul_position(), 2),
        _ => panic!("a unit with a zero byte was accepted"),
    }
    assert_eq!(UnitId::from_str("Bool").unwrap().as_bytes(), b"Bool");
    assert!(UnitId::from_str("Bo\0ol").is_err());
}

#[test]
fn single_index_param_array() {
    let mut a = VarParamArray1::index(2);
    let (size, variant) = a.as_raw_mut();
    assert_eq!(size, 1);
    assert_eq!(variant, FsVarParamVariant { type_: FS_VAR_PARAM_TYPE_INTEGER, value: 2 });
}

#[test]
fn kind_words() {
    for w in ["A", "AVar", "a", "avar", "  A ", "\tavar\n"] {
        assert_eq!(parse_kind_str(w), Some(VarKindSel::A));
    }
    for w in ["L", "LVar", "l", "lvar", " lvar", "L\u{3000}"] {
        assert_eq!(parse_kind_str(w), Some(VarKindSel::L));
    }
    for w in ["", " ", "AVAR", "Avar", "B", "A B", "LL", "lVar"] {
        assert_eq!(parse_kind_str(w), None);
    }
}

#[test]
fn kind_prefixes() {
    assert_eq!(infer_kind_from_name("A:AIRSPEED"), Some(VarKindSel::A));
    assert_eq!(infer_kind_from_name("  a:x"), Some(VarKindSel::A));
    assert_eq!(infer_kind_from_name("L:INFINITY_TOGGLE"), Some(VarKindSel::L));
    assert_eq!(infer_kind_from_name("l:"), Some(VarKindSel::L));
    assert_eq!(infer_kind_from_name("A"), None);
    assert_eq!(infer_kind_from_name(""), None);
    assert_eq!(infer_kind_from_name("   "), None);
    assert_eq!(infer_kind_from_name("A :X"), None);
    assert_eq!(infer_kind_from_name("K:EVENT"), None);
    assert_eq!(infer_kind_from_name("XA:"), None);
}

#[test]
fn target_words() {
    assert_eq!(parse_target_str("USER_AIRCRAFT"), Some(VarTargetSel::UserAircraft));
    assert_eq!(parse_target_str(" fs_object_id_user_aircraft "), Some(VarTargetSel::UserAircraft));
    assert_eq!(parse_target_str("user_avatar"), Some(VarTargetSel::UserAvatar));
    assert_eq!(parse_target_str("FS_OBJECT_ID_USER_AVATAR"), Some(VarTargetSel::UserAvatar));
    assert_eq!(parse_target_str("User_Current\n"), Some(VarTargetSel::UserCurrent));
    assert_eq!(parse_target_str("FS_OBJECT_ID_USER_CURRENT"), Some(VarTargetSel::UserCurrent));
    assert_eq!(parse_target_str("USER"), None);
    assert_eq!(parse_target_str(""), None);
    assert_eq!(parse_target_str("USER AIRCRAFT"), None);
    assert_eq!(target_id(VarTargetSel::UserAircraft), FS_OBJECT_ID_USER_AIRCRAFT);
    assert_eq!(target_id(VarTargetSel::UserAvatar), FS_OBJECT_ID_USER_AVATAR);
    assert_eq!(target_id(VarTargetSel::UserCurrent), FS_OBJECT_ID_USER_CURRENT);
}

#[test]
fn white_space_and_capitals_agree_with_std() {
    for u in 0u32..0x3100 {
        if let Some(c) = char::from_u32(u) {
            assert_eq!(is_whitespace(c), c.is_whitespace());
            assert_eq!(to_ascii_uppercase(c), c.to_ascii_uppercase());
        }
    }
    for w in ["  x ", "\u{a0}x\u{2003}", "x", "", " \t "] {
        assert_eq!(parse_kind_str(w), parse_kind_str(w.trim()));
    }
}

#[test]
fn fields_are_resolved() {
    let spec = resolve_field(Some("A:ENG RPM".to_string()), None, None, Some(2), None).unwrap();
    assert_eq!(spec.name, "A:ENG RPM");
    assert_eq!(spec.unit, "Number");
    assert_eq!(spec.kind, VarKindSel::A);
    assert_eq!(spec.accessor(), Accessor::Indexed(2));

    let spec = resolve_field(
        Some("TOGGLE".to_string()),
        Some("Bool".to_string()),
        Some(VarKindSel::L),
        None,
        Some(VarTargetSel::UserCurrent),
    )
    .unwrap();
    assert_eq!(spec.unit, "Bool");
    assert_eq!(spec.kind, VarKindSel::L);
    assert_eq!(spec.accessor(), Accessor::Target(VarTargetSel::UserCurrent));

    let spec = resolve_field(Some("l:x".to_string()), None, Some(VarKindSel::A), Some(1), Some(VarTargetSel::UserAvatar))
        .unwrap();
    assert_eq!(spec.kind, VarKindSel::A);
    assert_eq!(spec.accessor(), Accessor::IndexedTarget(1, VarTargetSel::UserAvatar));

    let spec = resolve_field(Some("L:X".to_string()), None, None, None, None).unwrap();
    assert_eq!(spec.accessor(), Accessor::Plain);

    assert_eq!(resolve_field(None, None, Some(VarKindSel::A), None, None).err(), Some(FieldError::MissingName));
    assert_eq!(
        resolve_field(Some("TOGGLE".to_string()), None, None, None, None).err(),
        Some(FieldError::MissingKind)
    );
    assert_eq!(
        resolve_field(Some("L:X".to_string()), None, None, Some(0), None).err(),
        Some(FieldError::IndexNotSupported)
    );
}
