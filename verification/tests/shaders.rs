use render_boot::errors::BootError;
use render_boot::shaders::{decode_spirv, SPIRV_MAGIC};

#[test]
fn decodes_little_endian_word_stream() {
    let bytes = vec![0x03, 0x02, 0x23, 0x07, 0x00, 0x00, 0x01, 0x00];
    let words = decode_spirv(&bytes).unwrap();
    assert_eq!(words, vec![SPIRV_MAGIC, 0x0001_0000]);
}

#[test]
fn rejects_empty_blob() {
    let bytes: Vec<u8> = Vec::new();
    assert_eq!(decode_spirv(&bytes), Err(BootError::ShaderModuleInvalid));
}

#[test]
fn rejects_blob_with_trailing_bytes() {
    let bytes = vec![0x03, 0x02, 0x23, 0x07, 0xFF];
    assert_eq!(decode_spirv(&bytes), Err(BootError::ShaderModuleInvalid));
}

#[test]
fn rejects_blob_without_magic_word() {
    let bytes = vec![0x00, 0x00, 0x00, 0x00];
    assert_eq!(decode_spirv(&bytes), Err(BootError::ShaderModuleInvalid));
}

#[test]
fn magic_word_alone_is_a_valid_stream() {
    let bytes = vec![0x03, 0x02, 0x23, 0x07];
    assert_eq!(decode_spirv(&bytes), Ok(vec![SPIRV_MAGIC]));
}
