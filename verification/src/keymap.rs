//! The keymap of the virtual keyboard.

use vstd::prelude::*;

use crate::error::CaptureError;

verus! {

/// Keyboard layout to emulate. An empty name stands for the default.
#[derive(Debug)]
pub struct KeyboardConfig {
    pub model: String,
    pub layout: String,
    pub variant: String,
    pub options: Option<String>,
}

/// The names that select a keymap.
#[derive(Debug)]
pub struct KeymapNames {
    pub rules: String,
    pub model: String,
    pub layout: String,
    pub variant: String,
    pub options: Option<String>,
}

/// A name, or the default where it is empty.
pub open spec fn or_default(name: Seq<char>, default: Seq<char>) -> Seq<char> {
    if name.len() == 0 { default } else { name }
}

fn name_or(name: &String, default: &str) -> (r: String)
    ensures
        r@ == or_default(name@, default@),
{
    if name.as_str().is_empty() {
        default.to_owned()
    } else {
        name.clone()
    }
}

impl KeymapNames {
    /// These names select the keymap for a configuration.
    pub open spec fn select_for(self, config: KeyboardConfig) -> bool {
        &&& self.rules@ == Seq::<char>::empty()
        &&& self.model@ == or_default(config.model@, "pc105"@)
        &&& self.layout@ == or_default(config.layout@, "us"@)
        &&& self.variant@ == config.variant@
        &&& self.options is Some <==> config.options is Some
        &&& self.options is Some ==> self.options->0@ == config.options->0@
    }
}

/// The names that select the keymap for a configuration: a `pc105` keyboard and
/// the `us` layout unless it says otherwise.
pub fn keymap_names(config: &KeyboardConfig) -> (names: KeymapNames)
    ensures
        names.select_for(*config),
{
    KeymapNames {
        rules: String::new(),
        model: name_or(&config.model, "pc105"),
        layout: name_or(&config.layout, "us"),
        variant: config.variant.clone(),
        options: match &config.options {
            Some(options) => Some(options.clone()),
            None => None,
        },
    }
}

/// A keymap as it is handed to the compositor: its bytes with a closing zero,
/// and their number.
#[derive(Debug)]
pub struct KeymapPayload {
    pub bytes: Vec<u8>,
    pub size: u32,
}

/// What becomes of the text of a keymap.
pub open spec fn is_payload_of(text: Seq<u8>, r: Result<KeymapPayload, CaptureError>) -> bool {
    match r {
        Ok(payload) => {
            &&& text.len() + 1 <= u32::MAX
            &&& payload.bytes@ == text.push(0)
            &&& payload.size == text.len() + 1
        },
        Err(CaptureError::KeymapTooLarge) => text.len() + 1 > u32::MAX,
        Err(_) => false,
    }
}

/// Closes a keymap with a zero byte. One of more bytes than 32 bits can count
/// is refused.
pub fn keymap_payload(text: Vec<u8>) -> (r: Result<KeymapPayload, CaptureError>)
    ensures
        is_payload_of(text@, r),
{
    let mut bytes: Vec<u8> = text;
    bytes.push(0);
    let len: usize = bytes.len();
    if len as u64 > 0xffff_ffff {
        return Err(CaptureError::KeymapTooLarge);
    }
    Ok(KeymapPayload { bytes, size: len as u32 })
}

/// A configured name is used as it is, and only an empty one is replaced, by the
/// name of a plain keyboard.
pub proof fn law_configured_names_are_used(names: KeymapNames, config: KeyboardConfig)
    requires
        names.select_for(config),
    ensures
        names.rules@.len() == 0,
        config.model@.len() > 0 ==> names.model@ == config.model@,
        config.model@.len() == 0 ==> names.model@ == "pc105"@,
        config.layout@.len() > 0 ==> names.layout@ == config.layout@,
        config.layout@.len() == 0 ==> names.layout@ == "us"@,
        names.variant@ == config.variant@,
        match config.options {
            Some(options) => names.options is Some && names.options->0@ == options@,
            None => names.options is None,
        },
{
}

/// The text of a keymap can be read back from its payload, in front of a closing
/// zero, and the size counts every byte. A keymap is refused exactly if it cannot.
pub proof fn law_keymaps_can_be_read_back(text: Seq<u8>, r: Result<KeymapPayload, CaptureError>)
    requires
        is_payload_of(text, r),
    ensures
        r is Ok <==> text.len() < 0xffff_ffff,
        r matches Ok(payload) ==> payload.size == payload.bytes@.len() && payload.bytes@.drop_last() == text
            && payload.bytes@.last() == 0,
{
    if r is Ok {
        assert(r->Ok_0.bytes@.drop_last() =~= text);
    }
}

} // verus!
