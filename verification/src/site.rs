use vstd::prelude::*;

verus! {

/// The browser that the session's client names itself as on every request.
pub const USER_AGENT: &'static str =
    "Mozilla/5.0 (Windows NT 10.0; Win64; x64) AppleWebKit/537.36 (KHTML, like Gecko) Chrome/120.0.0.0 Safari/537.36";

/// The platform's landing page: it holds the login form, and after a login
/// the mark of a logged-in visitor.
pub const LANDING_URL: &'static str = "https://www.dcinside.com/";

/// Where the login form is posted.
pub const LOGIN_URL: &'static str = "https://sign.dcinside.com/login/member_check";

/// The hidden inputs of the login form.
pub const LOGIN_INPUT_SELECTOR: &'static str = "#login_process > input";

/// An element that only a logged-in visitor is shown.
pub const LOGGED_IN_SELECTOR: &'static str = ".logout";

/// The address under which every user's pages stand.
pub const GALLOG_URL: &'static str = "https://gallog.dcinside.com/";

/// The host of `GALLOG_URL`, and the origin it makes.
pub const GALLOG_HOST: &'static str = "gallog.dcinside.com";

pub const GALLOG_ORIGIN: &'static str = "https://gallog.dcinside.com";

/// The entries of the gallery filter on a profile page.
pub const GALLERY_SELECTOR: &'static str = "div.option_sort.gallog > div > ul > li";

/// The attribute of such an entry that holds the gallery's id.
pub const GALLERY_ID_ATTR: &'static str = "data-value";

/// The items of a listing page.
pub const POST_SELECTOR: &'static str = ".cont_listbox > li";

/// The attribute of such an item that holds its identifier.
pub const POST_ID_ATTR: &'static str = "data-no";

/// The cookie that carries the challenge token of a profile page.
pub const CHALLENGE_COOKIE: &'static str = "ci_c";

/// The key under which the platform's challenge is registered.
pub const SITE_KEY: &'static str = "6LcJyr4UAAAAAOy9Q_e9sDWPSHJ_aXus4UnYLfgL";

/// The address of a user's profile page for one kind of content.
pub open spec fn profile_url(user_id: Seq<char>, post_type: Seq<char>) -> Seq<char> {
    GALLOG_URL@ + user_id + "/"@ + post_type
}

/// The address of a user's profile page for one kind of content.
pub fn profile_address(user_id: &str, post_type: &str) -> (r: String)
    ensures
        r@ == profile_url(user_id@, post_type@),
{
    let mut url = String::from_str(GALLOG_URL);
    url.append(user_id);
    url.append("/");
    url.append(post_type);
    url
}

} // verus!
