use garlemald::luaparam::{dump_params, read_lua_params, write_lua_params, LuaParam, LuaParamError, LUA_END};

#[test]
fn end_sentinel_only() {
    let params: Vec<LuaParam> = Vec::new();
    let mut buf = Vec::new();
    write_lua_params(&mut buf, &params);
    assert_eq!(buf, vec![LUA_END]);
    assert_eq!(read_lua_params(&buf).unwrap(), params);
}

#[test]
fn mixed_roundtrip() {
    let params = vec![
        LuaParam::Int32(-42),
        LuaParam::String("hi".into()),
        LuaParam::True,
        LuaParam::False,
        LuaParam::Nil,
        LuaParam::Actor(0xDEADBEEF),
        LuaParam::Byte(0x7),
    ];
    let mut buf = Vec::new();
    write_lua_params(&mut buf, &params);
    let parsed = read_lua_params(&buf).unwrap();
    assert_eq!(parsed, params);
}

#[test]
fn exact_wire_bytes() {
    let mut buf = Vec::new();
    write_lua_params(
        &mut buf,
        &[
            LuaParam::Int32(-1),
            LuaParam::UInt32(7),
            LuaParam::String("ab".into()),
            LuaParam::Type7 { actor_id: 0x01020304, unknown: 5, slot: 6, inventory_type: 7 },
            LuaParam::Short(0x1234),
        ],
    );
    assert_eq!(
        buf,
        vec![
            0x00, 0xFF, 0xFF, 0xFF, 0xFF, 0x00, 0x00, 0x00, 0x00, 0x07, 0x02, b'a', b'b', 0x00, 0x07,
            0x01, 0x02, 0x03, 0x04, 0x05, 0x06, 0x07, 0x1B, 0x0F
        ]
    );
}

#[test]
fn reads_unsigned_short_and_type9() {
    let bytes = [
        0x01, 0x80, 0x00, 0x00, 0x01, 0x1B, 0x12, 0x34, 0x09, 0, 0, 0, 0, 0, 0, 0, 1, 0, 0, 0, 0,
        0, 0, 0, 2, 0x0F,
    ];
    let parsed = read_lua_params(&bytes).unwrap();
    assert_eq!(
        parsed,
        vec![
            LuaParam::UInt32(0x8000_0001),
            LuaParam::Short(0x1234),
            LuaParam::Type9 { item1: 1, item2: 2 }
        ]
    );
}

#[test]
fn read_errors() {
    assert_eq!(read_lua_params(&[]).unwrap_err(), LuaParamError::UnexpectedEnd);
    assert_eq!(read_lua_params(&[0x00, 0x01]).unwrap_err(), LuaParamError::UnexpectedEnd);
    assert_eq!(read_lua_params(&[0x02, b'a']).unwrap_err(), LuaParamError::UnexpectedEnd);
    assert_eq!(read_lua_params(&[0x03]).unwrap_err(), LuaParamError::UnexpectedEnd);
    assert_eq!(read_lua_params(&[0x42, 0x0F]).unwrap_err(), LuaParamError::UnknownType(0x42));
}

#[test]
fn dump_formats_each_kind() {
    let s = dump_params(&[
        LuaParam::Int32(-42),
        LuaParam::String("hi".into()),
        LuaParam::True,
        LuaParam::Nil,
        LuaParam::Type9 { item1: 0xA, item2: 0 },
        LuaParam::Byte(0xC),
    ]);
    assert_eq!(s, "0xFFFFFFD6, \"hi\", true, nil, Type9 Param: (0xA, 0x0), 0xC");
    assert_eq!(dump_params(&[]), "");
    assert_eq!(LuaParam::UInt32(1).type_id(), 0);
    assert_eq!(LuaParam::Short(1).type_id(), 0x1B);
}
