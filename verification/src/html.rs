//! The HTML of the admin forms, with the pending flash messages rendered
//! above the form.

use vstd::prelude::*;

verus! {

/// One flash message as it is shown: `<p><i>{content}</i></p>`.
pub open spec fn flash_paragraph(content: Seq<char>) -> Seq<char> {
    "<p><i>"@ + content + "</i></p>"@
}

/// All flash messages, one paragraph each, in the order given.
pub open spec fn flash_paragraphs(contents: Seq<Seq<char>>) -> Seq<char>
    decreases contents.len(),
{
    if contents.len() == 0 {
        Seq::empty()
    } else {
        flash_paragraphs(contents.drop_last()) + flash_paragraph(contents.last())
    }
}

/// The texts of a list of messages.
pub open spec fn texts(messages: Seq<String>) -> Seq<Seq<char>> {
    messages.map_values(|m: String| m@)
}
/// The part of the newsletters page before the flash messages.
pub const NEWSLETTERS_PAGE_HEAD: &'static str = " <!doctype html>
<html lang=\"en\">
    <head>
        <title>New newsletter issue</title>
        <meta charset=\"UTF-8\" />
        <meta name=\"viewport\" content=\"width=device-width, initial-scale=1\" />
        <!-- <link href=\"css/style.css\" rel=\"stylesheet\"> -->
        <style>
            html {
                color-scheme: dark;
            }
        </style>
    </head>
    <body>
        <h1>New newsletter</h1>
        ";

/// The part of the newsletters page after the flash messages.
pub const NEWSLETTERS_PAGE_TAIL: &'static str = "
        <form action=\"/admin/newsletters\" method=\"post\">
            <label
                >Title
                <input type=\"text\" placeholder=\"Enter title\" name=\"title\" />
            </label>
            <br />
            <label
                >Text content
                <textarea
                    placeholder=\"Enter content\"
                    name=\"text\"
                    cols=\"50\"
                    rows=\"20\"
                ></textarea>
            </label>
            <br />
            <label
                >HTML content
                <textarea
                    placeholder=\"Enter content\"
                    name=\"html\"
                    cols=\"50\"
                    rows=\"20\"
                ></textarea>
            </label>
            <br />
            <button type=\"submit\">Send newsletter</button>
        </form>
        <p><a href=\"/admin/dashboard\">&lt;- Back</a></p>
    </body>
</html>
";

/// The part of the change password page before the flash messages.
pub const CHANGE_PASSWORD_PAGE_HEAD: &'static str = "<!doctype html>
<html lang=\"en\">
    <head>
        <title>Change Password</title>
        <meta charset=\"UTF-8\" />
        <meta name=\"viewport\" content=\"width=device-width, initial-scale=1\" />
        <!-- <link href=\"css/style.css\" rel=\"stylesheet\"> -->
    </head>
    <body>
        ";

/// The part of the change password page after the flash messages.
pub const CHANGE_PASSWORD_PAGE_TAIL: &'static str = "
        <form action=\"/admin/password\" method=\"post\">
            <label
                >Current password
                <input
                    type=\"password\"
                    placeholder=\"Enter current password\"
                    name=\"current_password\"
                />
            </label>
            <br />
            <label
                >New password
                <input
                    type=\"password\"
                    placeholder=\"Enter new password\"
                    name=\"new_password\"
                />
            </label>
            <br />
            <label
                >Confirm new password
                <input
                    type=\"password\"
                    placeholder=\"Type the new password again\"
                    name=\"new_password_check\"
                />
            </label>
            <br />
            <button type=\"submit\">Change password</button>
        </form>
        <p><a href=\"/admin/dashboard\">&lt;- Back</a></p>
    </body>
</html>";

/// The newsletter issue form, showing the given flash messages.
pub open spec fn newsletters_page(contents: Seq<Seq<char>>) -> Seq<char> {
    NEWSLETTERS_PAGE_HEAD@ + flash_paragraphs(contents) + NEWSLETTERS_PAGE_TAIL@
}

/// The change-password form, showing the given flash messages.
pub open spec fn change_password_page(contents: Seq<Seq<char>>) -> Seq<char> {
    CHANGE_PASSWORD_PAGE_HEAD@ + flash_paragraphs(contents) + CHANGE_PASSWORD_PAGE_TAIL@
}

/// Renders the flash messages, one `<p><i>..</i></p>` paragraph each, in order.
/// The text is inserted as it is, without escaping.
pub fn render_flash_messages(messages: &Vec<String>) -> (html: String)
    ensures
        html@ == flash_paragraphs(texts(messages@)),
{
    let mut html = String::new();
    let n = messages.len();
    let mut i: usize = 0;
    while i < n
        invariant
            n == messages.len(),
            i <= n,
            html@ == flash_paragraphs(texts(messages@).take(i as int)),
        decreases n - i,
    {
        assert(texts(messages@).take(i + 1).drop_last() =~= texts(messages@).take(i as int));
        html.append("<p><i>");
        html.append(messages[i].as_str());
        html.append("</i></p>");
        i = i + 1;
    }
    assert(texts(messages@).take(n as int) =~= texts(messages@));
    html
}

/// The page of the newsletter issue form (`GET /admin/newsletters`), with the
/// pending flash messages above the form.
pub fn newsletters_form(flash_messages: &Vec<String>) -> (page: String)
    ensures
        page@ == newsletters_page(texts(flash_messages@)),
{
    let mut page = NEWSLETTERS_PAGE_HEAD.to_owned();
    let messages = render_flash_messages(flash_messages);
    page.append(messages.as_str());
    page.append(NEWSLETTERS_PAGE_TAIL);
    page
}

/// The page of the change-password form (`GET /admin/password`), with the
/// pending flash messages above the form.
pub fn change_password_form(flash_messages: &Vec<String>) -> (page: String)
    ensures
        page@ == change_password_page(texts(flash_messages@)),
{
    let mut page = CHANGE_PASSWORD_PAGE_HEAD.to_owned();
    let messages = render_flash_messages(flash_messages);
    page.append(messages.as_str());
    page.append(CHANGE_PASSWORD_PAGE_TAIL);
    page
}

/// The length of all rendered messages: each message, plus the
/// `<p><i>` and `</i></p>` around it.
pub open spec fn shown_len(contents: Seq<Seq<char>>) -> nat
    decreases contents.len(),
{
    if contents.len() == 0 {
        0
    } else {
        shown_len(contents.drop_last()) + "<p><i>"@.len() + contents.last().len() + "</i></p>"@.len()
    }
}

/// Law: the texts of the messages are the messages' contents, one per
/// message, in the same order.
pub proof fn law_texts_are_the_contents(messages: Seq<String>)
    ensures
        texts(messages).len() == messages.len(),
        forall|i: int| 0 <= i < messages.len() ==> #[trigger] texts(messages)[i] == messages[i]@,
{
}

/// Law: no messages render as nothing.
pub proof fn law_no_messages_render_nothing()
    ensures
        flash_paragraphs(Seq::empty()) == Seq::<char>::empty(),
{
}

/// Law: one message renders as `<p><i>`, the message unchanged, and `</i></p>`.
pub proof fn law_one_message_renders_whole(content: Seq<char>)
    ensures
        flash_paragraphs(seq![content]) == "<p><i>"@ + content + "</i></p>"@,
{
    assert(seq![content].drop_last() =~= Seq::<Seq<char>>::empty());
    assert(flash_paragraphs(Seq::<Seq<char>>::empty()) == Seq::<char>::empty());
    assert(seq![content].last() == content);
    assert(Seq::<char>::empty() + ("<p><i>"@ + content + "</i></p>"@) =~= "<p><i>"@ + content + "</i></p>"@);
}

/// Law: rendering the messages `a` followed by `b` gives the rendering of `a`
/// followed by the rendering of `b`; with the law for one message this fixes
/// the rendering of every list: each message once, whole, in order.
pub proof fn law_rendering_distributes_over_concatenation(a: Seq<Seq<char>>, b: Seq<Seq<char>>)
    ensures
        flash_paragraphs(a + b) == flash_paragraphs(a) + flash_paragraphs(b),
    decreases b.len(),
{
    if b.len() == 0 {
        assert(a + b =~= a);
        assert(flash_paragraphs(a) + Seq::<char>::empty() =~= flash_paragraphs(a));
    } else {
        law_rendering_distributes_over_concatenation(a, b.drop_last());
        assert((a + b).drop_last() =~= a + b.drop_last());
        assert((a + b).last() == b.last());
        assert(flash_paragraphs(a + b) =~= flash_paragraphs(a) + flash_paragraphs(b.drop_last())
            + flash_paragraph(b.last()));
    }
}

/// Law: the rendered messages are exactly as long as the messages with their
/// `<p><i>` and `</i></p>`: nothing is added, dropped or cut.
pub proof fn law_rendering_length(contents: Seq<Seq<char>>)
    ensures
        flash_paragraphs(contents).len() == shown_len(contents),
    decreases contents.len(),
{
    if contents.len() > 0 {
        law_rendering_length(contents.drop_last());
    }
}

proof fn lemma_page_shows_message(head: Seq<char>, tail: Seq<char>, contents: Seq<Seq<char>>, i: int)
    requires
        0 <= i < contents.len(),
    ensures
        ({
            let page = head + flash_paragraphs(contents) + tail;
            let at: int = (head.len() + shown_len(contents.take(i))) as int;
            &&& page.len() == head.len() + shown_len(contents) + tail.len()
            &&& page.take(head.len() as int) == head
            &&& page.skip(page.len() - tail.len()) == tail
            &&& page.subrange(at as int, at + "<p><i>"@.len() + contents[i].len() + "</i></p>"@.len())
                == "<p><i>"@ + contents[i] + "</i></p>"@
        }),
{
    let before = contents.take(i);
    let this = seq![contents[i]];
    let after = contents.skip(i + 1);
    assert(contents =~= before + this + after);
    law_rendering_distributes_over_concatenation(before + this, after);
    law_rendering_distributes_over_concatenation(before, this);
    law_one_message_renders_whole(contents[i]);
    law_rendering_length(before);
    law_rendering_length(contents);
    let para = "<p><i>"@ + contents[i] + "</i></p>"@;
    let page = head + flash_paragraphs(contents) + tail;
    assert(page =~= head + flash_paragraphs(before) + para + flash_paragraphs(after) + tail);
    let at: int = (head.len() + shown_len(before)) as int;
    assert(page.subrange(at as int, at + para.len()) =~= para);
    assert(page.take(head.len() as int) =~= head);
    assert(page.skip(page.len() - tail.len()) =~= tail);
}

/// Law: the change-password page is its head, then every message whole in its
/// own `<p><i>..</i></p>` at its place (after the earlier messages), and
/// then its tail, with nothing else.
pub proof fn law_change_password_page_shows_every_message(contents: Seq<Seq<char>>, i: int)
    requires
        0 <= i < contents.len(),
    ensures
        ({
            let page = change_password_page(contents);
            let at: int = (CHANGE_PASSWORD_PAGE_HEAD@.len() + shown_len(contents.take(i))) as int;
            &&& page.len() == CHANGE_PASSWORD_PAGE_HEAD@.len() + shown_len(contents) + CHANGE_PASSWORD_PAGE_TAIL@.len()
            &&& page.take(CHANGE_PASSWORD_PAGE_HEAD@.len() as int) == CHANGE_PASSWORD_PAGE_HEAD@
            &&& page.skip(page.len() - CHANGE_PASSWORD_PAGE_TAIL@.len()) == CHANGE_PASSWORD_PAGE_TAIL@
            &&& page.subrange(at as int, at + "<p><i>"@.len() + contents[i].len() + "</i></p>"@.len())
                == "<p><i>"@ + contents[i] + "</i></p>"@
        }),
{
    lemma_page_shows_message(CHANGE_PASSWORD_PAGE_HEAD@, CHANGE_PASSWORD_PAGE_TAIL@, contents, i);
}

/// Law: the newsletter page is its head, then every message whole in its own
/// `<p><i>..</i></p>` at its place (after the earlier messages), and then its
/// tail, with nothing else.
pub proof fn law_newsletters_page_shows_every_message(contents: Seq<Seq<char>>, i: int)
    requires
        0 <= i < contents.len(),
    ensures
        ({
            let page = newsletters_page(contents);
            let at: int = (NEWSLETTERS_PAGE_HEAD@.len() + shown_len(contents.take(i))) as int;
            &&& page.len() == NEWSLETTERS_PAGE_HEAD@.len() + shown_len(contents) + NEWSLETTERS_PAGE_TAIL@.len()
            &&& page.take(NEWSLETTERS_PAGE_HEAD@.len() as int) == NEWSLETTERS_PAGE_HEAD@
            &&& page.skip(page.len() - NEWSLETTERS_PAGE_TAIL@.len()) == NEWSLETTERS_PAGE_TAIL@
            &&& page.subrange(at as int, at + "<p><i>"@.len() + contents[i].len() + "</i></p>"@.len())
                == "<p><i>"@ + contents[i] + "</i></p>"@
        }),
{
    lemma_page_shows_message(NEWSLETTERS_PAGE_HEAD@, NEWSLETTERS_PAGE_TAIL@, contents, i);
}

/// Law: without messages, each page is its head followed by its tail.
pub proof fn law_pages_without_messages()
    ensures
        change_password_page(Seq::empty()) == CHANGE_PASSWORD_PAGE_HEAD@ + CHANGE_PASSWORD_PAGE_TAIL@,
        newsletters_page(Seq::empty()) == NEWSLETTERS_PAGE_HEAD@ + NEWSLETTERS_PAGE_TAIL@,
{
    assert(change_password_page(Seq::empty()) =~= CHANGE_PASSWORD_PAGE_HEAD@ + CHANGE_PASSWORD_PAGE_TAIL@);
    assert(newsletters_page(Seq::empty()) =~= NEWSLETTERS_PAGE_HEAD@ + NEWSLETTERS_PAGE_TAIL@);
}

} // verus!
