//! Navigation of the main window: the address that a route of the frontend
//! stands for, and what the frontend is told once the window went there.

use vstd::prelude::*;
use vstd::string::*;
use crate::text::join;

verus! {

/// Where the frontend is served when nothing else is configured.
pub const DEFAULT_FRONTEND_URL: &'static str = "https://localhost:3000";

/// Where the main window is sent, and what the frontend is told afterwards.
#[derive(Debug)]
pub struct Navigation {
    /// The address, as the URL parser wrote it down.
    pub url: String,
    /// The answer to the frontend once the window has gone there.
    pub message: String,
}

/// What `url::Url::parse` makes of a text: the URL as it is written down
/// after parsing, or the message of the error.
pub uninterp spec fn url_parsed(text: Seq<char>) -> Result<Seq<char>, Seq<char>>;

/// Calls `url::Url::parse`. The contract names what comes back and claims
/// nothing else of it: a URL is handed on as its serialization, an error as
/// its message.
#[verifier::external_body]
fn parse_url(text: &str) -> (parsed: Result<String, String>)
    ensures
        match parsed {
            Ok(url) => url_parsed(text@) == Ok::<Seq<char>, Seq<char>>(url@),
            Err(message) => url_parsed(text@) == Err::<Seq<char>, Seq<char>>(message@),
        },
{
    match url::Url::parse(text) {
        Ok(url) => Ok(String::from(url)),
        Err(error) => Err(error.to_string()),
    }
}

/// The address where the frontend is served: the configured one, or the
/// default.
pub open spec fn frontend_base(configured: Option<String>) -> Seq<char> {
    match configured {
        Some(base) => base@,
        None => DEFAULT_FRONTEND_URL@,
    }
}

/// The address where the frontend is served: the configured one, or the
/// default.
pub fn frontend_url(configured: Option<String>) -> (base: String)
    ensures
        base@ == frontend_base(configured),
{
    match configured {
        Some(base) => base,
        None => String::from_str(DEFAULT_FRONTEND_URL),
    }
}

/// The address of a route below `base`: the two are joined by exactly one
/// slash, which the route may bring itself.
pub open spec fn route_address(base: Seq<char>, route: Seq<char>) -> Seq<char> {
    if route.len() > 0 && route[0] == '/' {
        base + route
    } else {
        base + "/"@ + route
    }
}

/// The address of a route below `base`.
pub fn route_url(base: &str, route: &str) -> (address: String)
    ensures
        address@ == route_address(base@, route@),
{
    if !route.is_empty() && route.get_char(0) == '/' {
        join(base, route)
    } else {
        let mut address = join(base, "/");
        address.append(route);
        address
    }
}

/// The outcome of a navigation to `address`, given what the URL parser made
/// of the address: the parsed URL with the message `Navigated to ` and the
/// destination's name, or the message `Invalid URL: ` and the parser's error.
pub open spec fn navigation_to(
    parsed: Result<Seq<char>, Seq<char>>,
    destination: Seq<char>,
) -> Result<(Seq<char>, Seq<char>), Seq<char>> {
    match parsed {
        Ok(url) => Ok((url, "Navigated to "@ + destination)),
        Err(message) => Err("Invalid URL: "@ + message),
    }
}

/// The outcome of a navigation, as text.
pub open spec fn navigation_view(outcome: Result<Navigation, String>) -> Result<
    (Seq<char>, Seq<char>),
    Seq<char>,
> {
    match outcome {
        Ok(navigation) => Ok((navigation.url@, navigation.message@)),
        Err(message) => Err(message@),
    }
}

/// The outcome of a navigation, from what the URL parser made of the address.
pub fn navigation(parsed: Result<String, String>, destination: &str) -> (outcome: Result<
    Navigation,
    String,
>)
    ensures
        navigation_view(outcome) == navigation_to(
            match parsed {
                Ok(url) => Ok(url@),
                Err(message) => Err(message@),
            },
            destination@,
        ),
{
    match parsed {
        Ok(url) => Ok(Navigation { url, message: join("Navigated to ", destination) }),
        Err(message) => Err(join("Invalid URL: ", message.as_str())),
    }
}

/// Sends the main window to the login page of the frontend.
pub fn navigate_to_login(configured: Option<String>) -> (outcome: Result<Navigation, String>)
    ensures
        navigation_view(outcome) == navigation_to(
            url_parsed(frontend_base(configured) + "/login"@),
            "login"@,
        ),
{
    let base = frontend_url(configured);
    let address = join(base.as_str(), "/login");
    navigation(parse_url(address.as_str()), "login")
}

/// Sends the main window to the calendar page of the frontend.
pub fn navigate_to_calendar(configured: Option<String>) -> (outcome: Result<Navigation, String>)
    ensures
        navigation_view(outcome) == navigation_to(
            url_parsed(frontend_base(configured) + "/calendar"@),
            "calendar"@,
        ),
{
    let base = frontend_url(configured);
    let address = join(base.as_str(), "/calendar");
    navigation(parse_url(address.as_str()), "calendar")
}

/// Sends the main window to a route of the frontend.
pub fn navigate_to_route(route: String, configured: Option<String>) -> (outcome: Result<
    Navigation,
    String,
>)
    ensures
        navigation_view(outcome) == navigation_to(
            url_parsed(route_address(frontend_base(configured), route@)),
            route@,
        ),
{
    let base = frontend_url(configured);
    let address = route_url(base.as_str(), route.as_str());
    navigation(parse_url(address.as_str()), route.as_str())
}

} // verus!
