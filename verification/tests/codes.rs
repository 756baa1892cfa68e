use lunar_lua::error::{check_status, Error};
use lunar_lua::{check_for_err, LuaError, LuaType};

#[test]
fn error_from_status_codes() {
    assert_eq!(Error::from(2), Error::Run);
    assert_eq!(Error::from(3), Error::Syntax);
    assert_eq!(Error::from(4), Error::Mem);
    assert_eq!(Error::from(5), Error::Handler);
    assert_eq!(Error::from(6), Error::File);
}

#[test]
fn error_names_are_the_status_names() {
    assert_eq!(Error::Run.name(), "Run");
    assert_eq!(Error::Mem.name(), "Mem");
    assert_eq!(Error::Handler.name(), "Err");
    assert_eq!(Error::Syntax.name(), "Syntax");
    assert_eq!(Error::File.name(), "File");
}

#[test]
fn check_status_ok_only_for_lua_ok() {
    assert_eq!(check_status(0), Ok(()));
    assert_eq!(check_status(2), Err(Error::Run));
    assert_eq!(check_status(3), Err(Error::Syntax));
    assert_eq!(check_status(6), Err(Error::File));
}

#[test]
fn lua_error_codes_round_trip() {
    let all = [LuaError::Run, LuaError::Syntax, LuaError::Mem, LuaError::Handler, LuaError::File];
    let codes = [2, 3, 4, 5, 6];
    for (e, c) in all.iter().zip(codes.iter()) {
        assert_eq!(e.code(), *c);
        assert_eq!(LuaError::from_code(*c), *e);
    }
}

#[test]
fn lua_errors_are_ordered_as_their_codes() {
    let all = [LuaError::Run, LuaError::Syntax, LuaError::Mem, LuaError::Handler, LuaError::File];
    for a in all.iter() {
        for b in all.iter() {
            assert_eq!(a < b, a.code() < b.code());
        }
    }
}

#[test]
fn check_for_err_maps_statuses() {
    assert_eq!(check_for_err(0), Ok(()));
    assert_eq!(check_for_err(2), Err(LuaError::Run));
    assert_eq!(check_for_err(3), Err(LuaError::Syntax));
    assert_eq!(check_for_err(4), Err(LuaError::Mem));
    assert_eq!(check_for_err(5), Err(LuaError::Handler));
    assert_eq!(check_for_err(6), Err(LuaError::File));
}

#[test]
fn lua_type_codes_round_trip() {
    let all = [
        LuaType::NoValue,
        LuaType::Nil,
        LuaType::Boolean,
        LuaType::LightUserData,
        LuaType::Number,
        LuaType::String,
        LuaType::Table,
        LuaType::Function,
        LuaType::UserData,
        LuaType::Thread,
    ];
    for (i, t) in all.iter().enumerate() {
        let code = i as i32 - 1;
        assert_eq!(t.code(), code);
        assert_eq!(LuaType::from_code(code), *t);
    }
    assert_eq!(LuaType::from_code(-1), LuaType::NoValue);
    assert_eq!(LuaType::from_code(3), LuaType::Number);
    assert_eq!(LuaType::from_code(4), LuaType::String);
}

#[test]
fn lua_types_are_ordered_as_their_codes() {
    assert!(LuaType::NoValue < LuaType::Nil);
    assert!(LuaType::Boolean < LuaType::Number);
    assert!(LuaType::Number < LuaType::String);
    assert!(LuaType::UserData < LuaType::Thread);
}

#[test]
fn lua_type_predicates() {
    assert!(LuaType::Nil.is_nil());
    assert!(!LuaType::NoValue.is_nil());
    assert!(LuaType::Boolean.is_boolean());
    assert!(LuaType::Number.is_number());
    assert!(!LuaType::String.is_number());
    assert!(LuaType::String.is_string());
    assert!(LuaType::Table.is_table());
    assert!(LuaType::Function.is_function());
    assert!(!LuaType::UserData.is_function());
}
