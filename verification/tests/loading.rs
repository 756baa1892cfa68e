use lunar_lua::lua_aux::aux_load_buffer;
use lunar_lua::lua_lib::StandardLib;
use lunar_lua::state::{LoadMode, LoadRequest, State};

#[test]
fn load_mode_strings() {
    assert_eq!(LoadMode::BinaryChunks.as_str(), "b");
    assert_eq!(LoadMode::TextChunks.as_str(), "t");
    assert_eq!(LoadMode::BinaryTextChunks.as_str(), "bt");
}

#[test]
fn default_load_mode_is_binary_and_text() {
    assert_eq!(LoadMode::default(), LoadMode::BinaryTextChunks);
    assert_eq!(LoadMode::default().as_str(), "bt");
}

#[test]
fn load_buffer_uses_the_default_mode() {
    let state = State::new(1);
    let request = state.load_buffer("result = 1 + 2", "src");
    assert_eq!(
        request,
        LoadRequest {
            chunk: b"result = 1 + 2".to_vec(),
            name: "src".to_string(),
            mode: Some(LoadMode::BinaryTextChunks),
        }
    );
}

#[test]
fn load_buffer_with_mode_keeps_a_given_mode() {
    let state = State::new(1);
    let request = state.load_buffer_with_mode(&[0x1b, b'L', b'u', b'a'], "bin", Some(LoadMode::BinaryChunks));
    assert_eq!(request.chunk, vec![0x1b, b'L', b'u', b'a']);
    assert_eq!(request.name, "bin");
    assert_eq!(request.mode, Some(LoadMode::BinaryChunks));
    let request = state.load_buffer_with_mode(b"x = 1", "text", None);
    assert_eq!(request.mode, Some(LoadMode::BinaryTextChunks));
}

#[test]
fn load_buffer_keeps_utf8_bytes() {
    let state = State::new(1);
    let request = state.load_buffer("s = 'héllo'", "u");
    assert_eq!(request.chunk, "s = 'héllo'".as_bytes().to_vec());
}

#[test]
fn state_handle() {
    assert_eq!(State::new(99).handle(), 99);
}

#[test]
fn aux_load_buffer_passes_no_mode() {
    let request = aux_load_buffer("return 1", "example");
    assert_eq!(request.chunk, b"return 1".to_vec());
    assert_eq!(request.name, "example");
    assert_eq!(request.mode, None);
}

#[test]
fn standard_library_module_names() {
    let libs = [
        (StandardLib::Base, "base"),
        (StandardLib::Coroutine, "coroutine"),
        (StandardLib::Debug, "debug"),
        (StandardLib::Io, "io"),
        (StandardLib::Math, "math"),
        (StandardLib::Os, "os"),
        (StandardLib::Package, "package"),
        (StandardLib::String, "string"),
        (StandardLib::Table, "table"),
        (StandardLib::Utf8, "utf8"),
    ];
    for (lib, name) in libs {
        assert_eq!(lib.module_name(), name);
    }
}

#[test]
fn binary_chunk_with_zero_bytes_is_handed_over_whole() {
    let state = State::new(1);
    let chunk = [0x1b, b'L', b'u', b'a', 0x54, 0x00, 0x19, 0x93, b'\r', b'\n', 0x1a, b'\n'];
    let request = state.load_buffer_with_mode(&chunk, "=dump", Some(LoadMode::BinaryChunks));
    assert_eq!(request.chunk, chunk.to_vec());
    assert_eq!(request.mode, Some(LoadMode::BinaryChunks));
}

#[test]
fn text_with_zero_bytes_is_handed_over_whole() {
    let state = State::new(1);
    assert_eq!(state.load_buffer("s = '\0'", "z").chunk, b"s = '\0'".to_vec());
    assert_eq!(aux_load_buffer("x\0y", "z").chunk, b"x\0y".to_vec());
}

#[test]
fn no_mode_loads_as_binary_and_text() {
    let state = State::new(1);
    assert_eq!(
        state.load_buffer_with_mode(b"x = 1", "m", None),
        state.load_buffer_with_mode(b"x = 1", "m", Some(LoadMode::BinaryTextChunks))
    );
    assert_eq!(state.load_buffer("x = 1", "m"), state.load_buffer_with_mode(b"x = 1", "m", None));
}
