//! ESP-IDF error codes (`esp_err_t`) and the error type built from them.
use vstd::prelude::*;

verus! {

/// `ESP_OK`: the call succeeded.
pub const ESP_OK: i32 = 0;

/// `ESP_FAIL`: generic failure.
pub const ESP_FAIL: i32 = -1;

/// `ESP_ERR_NO_MEM`: out of memory.
pub const ESP_ERR_NO_MEM: i32 = 0x101;

/// `ESP_ERR_INVALID_ARG`: an argument was not valid.
pub const ESP_ERR_INVALID_ARG: i32 = 0x102;

/// `ESP_ERR_INVALID_STATE`: the object was not in a state that allows the call.
pub const ESP_ERR_INVALID_STATE: i32 = 0x103;

/// A failed ESP-IDF call: an `esp_err_t` other than `ESP_OK`.
#[derive(Debug, Clone, Copy, PartialEq, Eq, Structural)]
pub struct EspError {
    code: i32,
}

impl EspError {
    /// The error code that this error carries.
    pub closed spec fn spec_code(&self) -> i32 {
        self.code
    }

    /// Every error carries a code other than `ESP_OK`.
    #[verifier::type_invariant]
    spec fn nonzero(&self) -> bool {
        self.code != ESP_OK
    }

    /// The error for `code`, or `None` when `code` is `ESP_OK`.
    pub fn from_code(code: i32) -> (r: Option<EspError>)
        ensures
            code == ESP_OK <==> r is None,
            r matches Some(e) ==> e.spec_code() == code,
    {
        if code == ESP_OK {
            None
        } else {
            Some(EspError { code })
        }
    }

    /// The error for a code that is known not to be `ESP_OK`.
    pub fn from_nonzero(code: i32) -> (r: EspError)
        requires
            code != ESP_OK,
        ensures
            r.spec_code() == code,
    {
        EspError { code }
    }

    /// The `ESP_ERR_INVALID_STATE` error.
    pub fn invalid_state() -> (r: EspError)
        ensures
            r.spec_code() == ESP_ERR_INVALID_STATE,
    {
        EspError { code: ESP_ERR_INVALID_STATE }
    }

    /// The `ESP_ERR_INVALID_ARG` error.
    pub fn invalid_arg() -> (r: EspError)
        ensures
            r.spec_code() == ESP_ERR_INVALID_ARG,
    {
        EspError { code: ESP_ERR_INVALID_ARG }
    }

    /// The code that this error carries; never `ESP_OK`.
    pub fn code(&self) -> (r: i32)
        ensures
            r == self.spec_code(),
            r != ESP_OK,
    {
        proof {
            use_type_invariant(self);
        }
        self.code
    }
}

/// What an ESP-IDF call that returned `code` means: `Ok` for `ESP_OK`, else the error.
pub open spec fn spec_esp_result(code: i32) -> Result<(), i32> {
    if code == ESP_OK {
        Ok(())
    } else {
        Err(code)
    }
}

/// Turns the `esp_err_t` that an ESP-IDF call returned into a `Result`.
pub fn esp_result(code: i32) -> (r: Result<(), EspError>)
    ensures
        r is Ok <==> code == ESP_OK,
        r matches Err(e) ==> e.spec_code() == code,
{
    match EspError::from_code(code) {
        None => Ok(()),
        Some(e) => Err(e),
    }
}

} // verus!
