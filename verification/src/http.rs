//! Request handlers: bind verbs and paths to the pages and the dispatcher,
//! and map every outcome to a fixed HTTP status and body.

use vstd::prelude::*;
use crate::dispatcher::{dispatch, resolution, DispatchOutcome, Resolution};
use crate::hw::{Delay, Indicator, Rgb, Tuner};
use crate::payload::{decode, guard_outcome, CommandRequest, GuardError, GuardModel};
use crate::station::{StationDirectory, StationModel};
use crate::store::HardwareStateStore;

verus! {

/// Status and body written back on one HTTP exchange.
pub struct HttpReply {
    pub status: u16,
    pub body: String,
}

/// The verbs the appliance serves.
#[derive(Clone, Copy, PartialEq, Eq, Structural, Debug)]
pub enum HttpMethod {
    Get,
    Post,
}

/// The handlers the appliance registers.
#[derive(Clone, Copy, PartialEq, Eq, Structural, Debug)]
pub enum Route {
    /// GET `/`: the greeting page; also sets the indicator.
    Index,
    /// GET `/radio`: the static control form page.
    ControlForm,
    /// POST `/post-radio-form`: guard, dispatch, report.
    PostRadioForm,
}

/// The fixed (method, path) table.
pub open spec fn route_of(method: HttpMethod, path: Seq<char>) -> Option<Route> {
    if method is Get && path == "/"@ {
        Some(Route::Index)
    } else if method is Get && path == "/radio"@ {
        Some(Route::ControlForm)
    } else if method is Post && path == "/post-radio-form"@ {
        Some(Route::PostRadioForm)
    } else {
        None
    }
}

/// Exact string equality, stated over the views.
fn str_is(a: &str, b: &str) -> (r: bool)
    ensures
        r <==> a@ == b@,
{
    let owned_a: String = a.to_owned();
    let owned_b: String = b.to_owned();
    owned_a == owned_b
}

/// Which handler serves `(method, path)`, if any.
pub fn route(method: HttpMethod, path: &str) -> (r: Option<Route>)
    ensures
        r == route_of(method, path@),
{
    match method {
        HttpMethod::Get => {
            if str_is(path, "/") {
                Some(Route::Index)
            } else if str_is(path, "/radio") {
                Some(Route::ControlForm)
            } else {
                None
            }
        },
        HttpMethod::Post => {
            if str_is(path, "/post-radio-form") {
                Some(Route::PostRadioForm)
            } else {
                None
            }
        },
    }
}

/// A page: the fixed document frame around `content`.
pub open spec fn templated_model(content: Seq<char>) -> Seq<char> {
    "\n<!DOCTYPE html>\n<html>\n    <head>\n        <meta charset=\"utf-8\">\n        <title>ISS web server</title>\n    </head>\n    <body>\n        "@
        + content
        + "\n    </body>\n</html>\n"@
}

/// Wrap `content` in the fixed document frame.
pub fn templated(content: &str) -> (page: String)
    ensures
        page@ == templated_model(content@),
{
    let mut page: String =
        "\n<!DOCTYPE html>\n<html>\n    <head>\n        <meta charset=\"utf-8\">\n        <title>ISS web server</title>\n    </head>\n    <body>\n        ".to_owned();
    page.append(content);
    page.append("\n    </body>\n</html>\n");
    page
}

/// The greeting page.
pub fn index_html() -> (page: String)
    ensures
        page@ == templated_model("Hello from ISS!"@),
{
    templated("Hello from ISS!")
}

/// The control form's content: posts a station name and a webradio flag to
/// the form handler.
pub open spec fn control_form_content() -> Seq<char> {
    "<form id=\"control\"><label>Station <input type=\"text\" name=\"station\"></label><label>Webradio <input type=\"checkbox\" name=\"is_webradio\"></label><button type=\"submit\">Tune</button></form><script>document.getElementById(\"control\").addEventListener(\"submit\",function(e){e.preventDefault();fetch(\"/post-radio-form\",{method:\"POST\",body:JSON.stringify({station:this.station.value,is_webradio:this.is_webradio.checked})});});</script>"@
}

/// The control form page.
pub fn control_radio_html() -> (page: String)
    ensures
        page@ == templated_model(control_form_content()),
{
    templated(
        "<form id=\"control\"><label>Station <input type=\"text\" name=\"station\"></label><label>Webradio <input type=\"checkbox\" name=\"is_webradio\"></label><button type=\"submit\">Tune</button></form><script>document.getElementById(\"control\").addEventListener(\"submit\",function(e){e.preventDefault();fetch(\"/post-radio-form\",{method:\"POST\",body:JSON.stringify({station:this.station.value,is_webradio:this.is_webradio.checked})});});</script>",
    )
}

/// The plain-text confirmation echoing a dispatched request's fields.
pub open spec fn confirmation_model(station_name: Seq<char>, is_web: bool) -> Seq<char> {
    "Requested "@ + station_name + " station and "@ + (if is_web {
        "true"@
    } else {
        "false"@
    }) + " webradio"@
}

fn confirmation(req: &CommandRequest) -> (s: String)
    ensures
        s@ == confirmation_model(req.station_name@, req.is_web),
{
    let mut s: String = "Requested ".to_owned();
    s.append(req.station_name.as_str());
    s.append(" station and ");
    if req.is_web {
        s.append("true");
    } else {
        s.append("false");
    }
    s.append(" webradio");
    s
}

/// The fixed status mapping for the form handler: 413 for an oversized
/// claim, 400 for a body that cannot be decoded, 404 for an unknown
/// station, 400 for a kind mismatch, 500 for a tuner failure, and 200 with
/// the confirmation for a dispatched request.
pub open spec fn form_reply_model(
    declared_len: int,
    body: Seq<u8>,
    dir: Seq<StationModel>,
    r: HttpReply,
) -> bool {
    match guard_outcome(declared_len, body) {
        GuardModel::TooLarge => r.status == 413 && r.body@ == "Request too big"@,
        GuardModel::Truncated => r.status == 400 && r.body@ == "JSON error"@,
        GuardModel::Malformed { body: _ } => r.status == 400 && r.body@ == "JSON error"@,
        GuardModel::Accepted { station_name, is_web } => match resolution(
            dir,
            station_name,
            is_web,
        ) {
            Resolution::NotFound => r.status == 404 && r.body@ == "Station not found"@,
            Resolution::Mismatch => r.status == 400 && r.body@ == "Station kind mismatch"@,
            Resolution::Web { url: _ } => r.status == 200 && r.body@ == confirmation_model(
                station_name,
                is_web,
            ),
            Resolution::Fm { freq_dmhz: _ } => (r.status == 200 && r.body@ == confirmation_model(
                station_name,
                is_web,
            )) || (r.status == 500 && r.body@ == "Hardware error"@),
        },
    }
}

/// GET `/`: serve the greeting page and set the indicator to the visited
/// color. The returned flag reports the advisory indicator write; a failure
/// there is non-fatal and must only be logged by the caller.
pub fn handle_index<T: Tuner, I: Indicator, D: Delay>(store: &HardwareStateStore<T, I, D>) -> (r: (
    HttpReply,
    bool,
))
    requires
        store.wf(),
    ensures
        r.0.status == 200,
        r.0.body@ == templated_model("Hello from ISS!"@),
{
    let page = index_html();
    let ok = store.set_indicator(Rgb::new(0, 50, 0));
    (HttpReply { status: 200, body: page }, ok)
}

/// GET `/radio`: serve the static control form page. No hardware is
/// touched.
pub fn handle_radio_page() -> (r: HttpReply)
    ensures
        r.status == 200,
        r.body@ == templated_model(control_form_content()),
{
    HttpReply { status: 200, body: control_radio_html() }
}

/// POST `/post-radio-form`: guard the body, dispatch the decoded request,
/// and map the outcome to the fixed status table. `declared_len` is the
/// length the client claimed; `body` holds the bytes the transport read,
/// none when the claim was already over the ceiling.
pub fn handle_post_radio_form<T: Tuner, I: Indicator, D: Delay>(
    declared_len: usize,
    body: &Vec<u8>,
    store: &HardwareStateStore<T, I, D>,
    directory: &StationDirectory,
) -> (r: HttpReply)
    requires
        store.wf(),
    ensures
        form_reply_model(declared_len as int, body@, directory@, r),
{
    match decode(declared_len, body) {
        Err(GuardError::TooLarge) => HttpReply { status: 413, body: "Request too big".to_owned() },
        Err(GuardError::Truncated) => HttpReply { status: 400, body: "JSON error".to_owned() },
        Err(GuardError::Malformed { body: _ }) => HttpReply {
            status: 400,
            body: "JSON error".to_owned(),
        },
        Ok(req) => {
            let outcome = dispatch(&req, store, directory);
            match outcome {
                DispatchOutcome::NotFound { station_name: _ } => HttpReply {
                    status: 404,
                    body: "Station not found".to_owned(),
                },
                DispatchOutcome::KindMismatch => HttpReply {
                    status: 400,
                    body: "Station kind mismatch".to_owned(),
                },
                DispatchOutcome::HardwareError => HttpReply {
                    status: 500,
                    body: "Hardware error".to_owned(),
                },
                DispatchOutcome::FmTuned { freq_dmhz: _, indicator_ok: _ } => HttpReply {
                    status: 200,
                    body: confirmation(&req),
                },
                DispatchOutcome::WebResolved { url: _ } => HttpReply {
                    status: 200,
                    body: confirmation(&req),
                },
            }
        },
    }
}

} // verus!
