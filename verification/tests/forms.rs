use newsletter_admin::html::{
    change_password_form, newsletters_form, render_flash_messages, CHANGE_PASSWORD_PAGE_HEAD,
    CHANGE_PASSWORD_PAGE_TAIL, NEWSLETTERS_PAGE_HEAD, NEWSLETTERS_PAGE_TAIL,
};

#[test]
fn flash_messages_are_paragraphs_in_order() {
    let html = render_flash_messages(&vec!["first".to_string(), "second".to_string()]);
    assert_eq!(html, "<p><i>first</i></p><p><i>second</i></p>");
    assert_eq!(render_flash_messages(&vec![]), "");
}

#[test]
fn newsletters_form_shows_messages_above_the_form() {
    let page = newsletters_form(&vec!["Successfully send a newsletter".to_string()]);
    assert_eq!(
        page,
        format!("{}<p><i>Successfully send a newsletter</i></p>{}", NEWSLETTERS_PAGE_HEAD, NEWSLETTERS_PAGE_TAIL)
    );
    assert!(page.starts_with(" <!doctype html>\n<html lang=\"en\">"));
    assert!(page.contains("        <h1>New newsletter</h1>\n        <p><i>Successfully send a newsletter</i></p>\n        <form action=\"/admin/newsletters\" method=\"post\">"));
    assert!(page.contains("            html {\n                color-scheme: dark;\n            }"));
    assert!(page.ends_with("<p><a href=\"/admin/dashboard\">&lt;- Back</a></p>\n    </body>\n</html>\n"));
}

#[test]
fn change_password_form_shows_messages_above_the_form() {
    let page = change_password_form(&vec!["New passwords doesn't match.".to_string()]);
    assert_eq!(
        page,
        format!("{}<p><i>New passwords doesn't match.</i></p>{}", CHANGE_PASSWORD_PAGE_HEAD, CHANGE_PASSWORD_PAGE_TAIL)
    );
    assert!(page.starts_with("<!doctype html>\n<html lang=\"en\">"));
    assert!(page.contains("    <body>\n        <p><i>New passwords doesn't match.</i></p>\n        <form action=\"/admin/password\" method=\"post\">"));
    assert!(page.contains("name=\"new_password_check\""));
    assert!(page.ends_with("&lt;- Back</a></p>\n    </body>\n</html>"));
}

#[test]
fn forms_without_messages() {
    assert_eq!(newsletters_form(&vec![]), format!("{}{}", NEWSLETTERS_PAGE_HEAD, NEWSLETTERS_PAGE_TAIL));
    assert_eq!(change_password_form(&vec![]), format!("{}{}", CHANGE_PASSWORD_PAGE_HEAD, CHANGE_PASSWORD_PAGE_TAIL));
}

#[test]
fn newsletters_page_is_exact() {
    let expected = " <!doctype html>\n<html lang=\"en\">\n    <head>\n        <title>New newsletter issue</title>\n        <meta charset=\"UTF-8\" />\n        <meta name=\"viewport\" content=\"width=device-width, initial-scale=1\" />\n        <!-- <link href=\"css/style.css\" rel=\"stylesheet\"> -->\n        <style>\n            html {\n                color-scheme: dark;\n            }\n        </style>\n    </head>\n    <body>\n        <h1>New newsletter</h1>\n        <p><i>one</i></p><p><i>two</i></p>\n        <form action=\"/admin/newsletters\" method=\"post\">\n            <label\n                >Title\n                <input type=\"text\" placeholder=\"Enter title\" name=\"title\" />\n            </label>\n            <br />\n            <label\n                >Text content\n                <textarea\n                    placeholder=\"Enter content\"\n                    name=\"text\"\n                    cols=\"50\"\n                    rows=\"20\"\n                ></textarea>\n            </label>\n            <br />\n            <label\n                >HTML content\n                <textarea\n                    placeholder=\"Enter content\"\n                    name=\"html\"\n                    cols=\"50\"\n                    rows=\"20\"\n                ></textarea>\n            </label>\n            <br />\n            <button type=\"submit\">Send newsletter</button>\n        </form>\n        <p><a href=\"/admin/dashboard\">&lt;- Back</a></p>\n    </body>\n</html>\n";
    assert_eq!(newsletters_form(&vec!["one".to_string(), "two".to_string()]), expected);
}

#[test]
fn change_password_page_is_exact() {
    let expected = "<!doctype html>\n<html lang=\"en\">\n    <head>\n        <title>Change Password</title>\n        <meta charset=\"UTF-8\" />\n        <meta name=\"viewport\" content=\"width=device-width, initial-scale=1\" />\n        <!-- <link href=\"css/style.css\" rel=\"stylesheet\"> -->\n    </head>\n    <body>\n        <p><i>one</i></p><p><i>two</i></p>\n        <form action=\"/admin/password\" method=\"post\">\n            <label\n                >Current password\n                <input\n                    type=\"password\"\n                    placeholder=\"Enter current password\"\n                    name=\"current_password\"\n                />\n            </label>\n            <br />\n            <label\n                >New password\n                <input\n                    type=\"password\"\n                    placeholder=\"Enter new password\"\n                    name=\"new_password\"\n                />\n            </label>\n            <br />\n            <label\n                >Confirm new password\n                <input\n                    type=\"password\"\n                    placeholder=\"Type the new password again\"\n                    name=\"new_password_check\"\n                />\n            </label>\n            <br />\n            <button type=\"submit\">Change password</button>\n        </form>\n        <p><a href=\"/admin/dashboard\">&lt;- Back</a></p>\n    </body>\n</html>";
    assert_eq!(change_password_form(&vec!["one".to_string(), "two".to_string()]), expected);
}

