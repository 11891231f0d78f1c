use vstd::prelude::*;
use vstd::string::StringExecFns;

verus! {

/// The text of the landing page.
pub open spec fn home_page_text() -> Seq<char> {
    r#"
    <!DOCTYPE html>
    <html>
        <head>
            <meta charset="utf-8">
            <title>Home</title>
        </head>
        <body>
            <h1>Home</h1>
            <p>Welcome to the home page!</p>
        </body>
    </html>
    "#@
}

/// The text of the sign-in page.
pub open spec fn oauth_home_page_text() -> Seq<char> {
    r#"
    <!DOCTYPE html>
    <html>
        <head>
            <meta charset="utf-8">
            <title>OAuth</title>
        </head>
        <body>
            <h1>OAuth</h1>
            <p>Welcome to the OAuth home page!</p>
            <a href="/oauth/github">Login with GitHub</a>
        </body>
    </html>
    "#@
}

pub fn home_page() -> (r: String)
    ensures
        r@ == home_page_text(),
{
    String::from_str(
        r#"
    <!DOCTYPE html>
    <html>
        <head>
            <meta charset="utf-8">
            <title>Home</title>
        </head>
        <body>
            <h1>Home</h1>
            <p>Welcome to the home page!</p>
        </body>
    </html>
    "#,
    )
}

pub fn oauth_home_page() -> (r: String)
    ensures
        r@ == oauth_home_page_text(),
{
    String::from_str(
        r#"
    <!DOCTYPE html>
    <html>
        <head>
            <meta charset="utf-8">
            <title>OAuth</title>
        </head>
        <body>
            <h1>OAuth</h1>
            <p>Welcome to the OAuth home page!</p>
            <a href="/oauth/github">Login with GitHub</a>
        </body>
    </html>
    "#,
    )
}

} // verus!
