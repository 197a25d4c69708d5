use vstd::prelude::*;

use crate::settings::Settings;
use crate::text::join;
use crate::wrapper::SuccessWrapper;

verus! {

/// How the clock is brought to the NTP server's time.
#[derive(PartialEq, Eq, Structural, Clone, Copy, Debug)]
pub enum NtpRequest {
    /// Set the clock at once.
    Step,
    /// Adjust the clock gradually.
    Slew,
}

/// The shell command that steps the clock to the configured NTP server.
pub fn ntp_sync_step(settings: &Settings) -> (r: String)
    ensures
        r@ == "sudo ntpdate -b "@ + settings.ntp_server_url@,
{
    join("sudo ntpdate -b ", settings.ntp_server_url.as_str())
}

/// The shell command that slews the clock to the configured NTP server.
pub fn ntp_sync_slew(settings: &Settings) -> (r: String)
    ensures
        r@ == "sudo ntpdate -B "@ + settings.ntp_server_url@,
{
    join("sudo ntpdate -B ", settings.ntp_server_url.as_str())
}

/// The shell command for a synchronisation request.
pub fn ntp_command(request: NtpRequest, settings: &Settings) -> (r: String)
    ensures
        request == NtpRequest::Step ==> r@ == "sudo ntpdate -b "@ + settings.ntp_server_url@,
        request == NtpRequest::Slew ==> r@ == "sudo ntpdate -B "@ + settings.ntp_server_url@,
{
    match request {
        NtpRequest::Step => ntp_sync_step(settings),
        NtpRequest::Slew => ntp_sync_slew(settings),
    }
}

/// The answer to a synchronisation: the command's output on success, its error otherwise.
pub fn ntp_reply(result: Result<String, String>) -> (r: SuccessWrapper<String>)
    ensures
        r.success == result is Ok,
        result is Ok ==> r.value@ == result->Ok_0@,
        result is Err ==> r.value@ == result->Err_0@,
{
    match result {
        Ok(output) => SuccessWrapper::success(output),
        Err(message) => SuccessWrapper::failure(message),
    }
}

} // verus!
