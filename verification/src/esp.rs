use vstd::prelude::*;

verus! {

/// The ESP-IDF status code for success.
pub const ESP_OK: i32 = 0;

/// ESP-IDF: the NVS partition has no free pages left.
pub const ESP_ERR_NVS_NO_FREE_PAGES: i32 = 0x110d;

/// ESP-IDF: the NVS partition holds data in a newer format.
pub const ESP_ERR_NVS_NEW_VERSION_FOUND: i32 = 0x1110;

/// A failed ESP-IDF call and the status code it returned.
#[derive(Debug)]
pub struct EspError {
    code: i32,
}

impl EspError {
    /// The status code of the failed call.
    pub closed spec fn spec_code(&self) -> i32 {
        self.code
    }

    /// The status code of the failed call.
    pub fn code(&self) -> (code: i32)
        ensures
            code == self.spec_code(),
    {
        self.code
    }
}

impl From<i32> for EspError {
    fn from(e: i32) -> (error: Self)
        ensures
            error.spec_code() == e,
    {
        EspError { code: e }
    }
}

impl vstd::std_specs::convert::FromSpecImpl<i32> for EspError {
    open spec fn obeys_from_spec() -> bool {
        true
    }

    closed spec fn from_spec(e: i32) -> Self {
        EspError { code: e }
    }
}

/// Turns an ESP-IDF status code into a result: `Ok` for `ESP_OK`, else the
/// error that carries the code.
pub fn err(code: i32) -> (result: Result<(), EspError>)
    ensures
        code == ESP_OK ==> result is Ok,
        code != ESP_OK ==> result is Err && result->Err_0.spec_code() == code,
{
    if code != ESP_OK {
        Err(EspError { code })
    } else {
        Ok(())
    }
}

/// Whether the NVS partition must be erased and initialised again after its
/// first initialisation returned `code`.
pub fn nvs_needs_erase(code: i32) -> (erase: bool)
    ensures
        erase == (code == ESP_ERR_NVS_NO_FREE_PAGES || code == ESP_ERR_NVS_NEW_VERSION_FOUND),
{
    code == ESP_ERR_NVS_NO_FREE_PAGES || code == ESP_ERR_NVS_NEW_VERSION_FOUND
}

} // verus!
