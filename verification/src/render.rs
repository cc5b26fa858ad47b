use vstd::prelude::*;

use crate::admin::Banner;
use crate::i18n::translation;
use crate::landing::{AppCard, LandingPage, MaintenanceBadge};
use crate::text::{chars_of, string_from_chars};

verus! {

broadcast use vstd::string::group_string_axioms;

// ---------------------------------------------------------------------------
// Escaping

/// How one character of dynamic text is written into HTML text or a quoted attribute.
pub open spec fn escape_char(c: char) -> Seq<char> {
    if c == '&' {
        "&amp;"@
    } else if c == '<' {
        "&lt;"@
    } else if c == '>' {
        "&gt;"@
    } else if c == '"' {
        "&#34;"@
    } else if c == '\'' {
        "&#39;"@
    } else {
        seq![c]
    }
}

/// Dynamic text as written into the page, every markup-significant character escaped.
pub open spec fn escape_html(s: Seq<char>) -> Seq<char>
    decreases s.len(),
{
    if s.len() == 0 {
        Seq::empty()
    } else {
        escape_html(s.drop_last()) + escape_char(s.last())
    }
}

fn push_chars(out: &mut Vec<char>, s: &str)
    ensures
        final(out)@ == old(out)@ + s@,
{
    let cs = chars_of(s);
    let ghost start = out@;
    let mut i: usize = 0;
    while i < cs.len()
        invariant
            i <= cs@.len(),
            cs@ == s@,
            out@ == start + cs@.take(i as int),
        decreases cs.len() - i,
    {
        out.push(cs[i]);
        i = i + 1;
        assert(out@ =~= start + cs@.take(i as int));
    }
    assert(cs@.take(cs@.len() as int) =~= cs@);
}

/// Appends `s` to `out`, escaped.
fn push_escaped(out: &mut String, s: &str)
    ensures
        final(out)@ == old(out)@ + escape_html(s@),
{
    let cs = chars_of(s);
    let mut buf: Vec<char> = Vec::new();
    let mut i: usize = 0;
    assert(cs@.take(0) =~= Seq::<char>::empty());
    while i < cs.len()
        invariant
            i <= cs@.len(),
            buf@ == escape_html(cs@.take(i as int)),
        decreases cs.len() - i,
    {
        let c = cs[i];
        if c == '&' {
            push_chars(&mut buf, "&amp;");
        } else if c == '<' {
            push_chars(&mut buf, "&lt;");
        } else if c == '>' {
            push_chars(&mut buf, "&gt;");
        } else if c == '"' {
            push_chars(&mut buf, "&#34;");
        } else if c == '\'' {
            push_chars(&mut buf, "&#39;");
        } else {
            buf.push(c);
            assert(seq![c] =~= escape_char(c));
        }
        proof {
            assert(cs@.take(i + 1).drop_last() =~= cs@.take(i as int));
            assert(cs@.take(i + 1).last() == c);
        }
        i = i + 1;
    }
    assert(cs@.take(cs@.len() as int) =~= cs@);
    let escaped = string_from_chars(buf.as_slice());
    out.append(escaped.as_str());
}

proof fn lemma_escape_char_is_inert(c: char)
    ensures
        forall|i: int|
            0 <= i < escape_char(c).len() ==> #[trigger] escape_char(c)[i] != '<' && escape_char(
                c,
            )[i] != '>' && escape_char(c)[i] != '"' && escape_char(c)[i] != '\'',
{
    reveal_strlit("&amp;");
    reveal_strlit("&lt;");
    reveal_strlit("&gt;");
    reveal_strlit("&#34;");
    reveal_strlit("&#39;");
}

/// Escaped text holds no character that could open a tag or end a quoted attribute, so no
/// dynamic value (a user's name, a banner message) can inject markup.
pub proof fn lemma_escaped_text_cannot_inject_markup(s: Seq<char>)
    ensures
        forall|i: int|
            0 <= i < escape_html(s).len() ==> #[trigger] escape_html(s)[i] != '<' && escape_html(
                s,
            )[i] != '>' && escape_html(s)[i] != '"' && escape_html(s)[i] != '\'',
    decreases s.len(),
{
    if s.len() > 0 {
        lemma_escaped_text_cannot_inject_markup(s.drop_last());
        lemma_escape_char_is_inert(s.last());
        let a = escape_html(s.drop_last());
        let b = escape_char(s.last());
        assert forall|i: int| 0 <= i < escape_html(s).len() implies #[trigger] escape_html(s)[i]
            != '<' && escape_html(s)[i] != '>' && escape_html(s)[i] != '"' && escape_html(s)[i]
            != '\'' by {
            if i < a.len() {
                assert(escape_html(s)[i] == a[i]);
            } else {
                assert(escape_html(s)[i] == b[i - a.len()]);
            }
        }
    }
}

// ---------------------------------------------------------------------------
// The landing page

/// The document head and the start of the site header.
pub open spec fn head_html(p: LandingPage) -> Seq<char> {
    "<!DOCTYPE html>\n<html lang=\""@
        + escape_html(p.tr@)
        + "\">\n<head>\n<meta charset=\"utf-8\">\n<meta name=\"viewport\" content=\"width=device-width, initial-scale=1\">\n<title>SweetRPG</title>\n<link rel=\"stylesheet\" href=\""@
        + escape_html(p.shared_url@)
        + "/css/shared.css\">\n<link rel=\"stylesheet\" href=\"/static/css/main.css\">\n<script src=\"/static/js/theme.js\"></script>\n</head>\n<body>\n<header class=\"site-header\">\n<a class=\"brand\" href=\"/\"><img class=\"brand-logo\" src=\""@
        + escape_html(p.shared_url@)
        + "/img/logo.svg\" alt=\"SweetRPG\"></a>\n"@
}

fn push_head_html(out: &mut String, p: &LandingPage)
    ensures
        final(out)@ == old(out)@ + head_html(*p),
{
    let ghost start = out@;
    out.append("<!DOCTYPE html>\n<html lang=\"");
    push_escaped(out, p.tr.locale());
    out.append("\">\n<head>\n<meta charset=\"utf-8\">\n<meta name=\"viewport\" content=\"width=device-width, initial-scale=1\">\n<title>SweetRPG</title>\n<link rel=\"stylesheet\" href=\"");
    push_escaped(out, p.shared_url.as_str());
    out.append("/css/shared.css\">\n<link rel=\"stylesheet\" href=\"/static/css/main.css\">\n<script src=\"/static/js/theme.js\"></script>\n</head>\n<body>\n<header class=\"site-header\">\n<a class=\"brand\" href=\"/\"><img class=\"brand-logo\" src=\"");
    push_escaped(out, p.shared_url.as_str());
    out.append("/img/logo.svg\" alt=\"SweetRPG\"></a>\n");
    assert(out@ =~= start + head_html(*p));
}

/// The app switcher: the four destinations of the suite.
pub open spec fn switcher_html(p: LandingPage) -> Seq<char> {
    "<nav class=\"app-switcher\">\n<button class=\"app-switcher-trigger\" type=\"button\" aria-haspopup=\"true\" aria-label=\""@
        + escape_html(translation(p.tr@, "menu.switch_app"@))
        + "\"><span class=\"app-switcher-icon\"></span></button>\n<div class=\"app-switcher-menu\" role=\"menu\">\n<a class=\"app-switcher-item\" href=\"/\">"@
        + escape_html(translation(p.tr@, "nav.main"@))
        + "</a>\n<a class=\"app-switcher-item\" href=\"/catalog\">"@
        + escape_html(translation(p.tr@, "nav.catalog"@))
        + "</a>\n<a class=\"app-switcher-item\" href=\"/game-room\">"@
        + escape_html(translation(p.tr@, "nav.game_room"@))
        + "</a>\n<a class=\"app-switcher-item\" href=\"/initiative\">"@
        + escape_html(translation(p.tr@, "nav.initiative"@))
        + "</a>\n</div>\n</nav>\n"@
}

fn push_switcher_html(out: &mut String, p: &LandingPage)
    ensures
        final(out)@ == old(out)@ + switcher_html(*p),
{
    let ghost start = out@;
    out.append("<nav class=\"app-switcher\">\n<button class=\"app-switcher-trigger\" type=\"button\" aria-haspopup=\"true\" aria-label=\"");
    {
        let text = p.tr.get("menu.switch_app");
        push_escaped(out, text.as_str());
    }
    out.append("\"><span class=\"app-switcher-icon\"></span></button>\n<div class=\"app-switcher-menu\" role=\"menu\">\n<a class=\"app-switcher-item\" href=\"/\">");
    {
        let text = p.tr.get("nav.main");
        push_escaped(out, text.as_str());
    }
    out.append("</a>\n<a class=\"app-switcher-item\" href=\"/catalog\">");
    {
        let text = p.tr.get("nav.catalog");
        push_escaped(out, text.as_str());
    }
    out.append("</a>\n<a class=\"app-switcher-item\" href=\"/game-room\">");
    {
        let text = p.tr.get("nav.game_room");
        push_escaped(out, text.as_str());
    }
    out.append("</a>\n<a class=\"app-switcher-item\" href=\"/initiative\">");
    {
        let text = p.tr.get("nav.initiative");
        push_escaped(out, text.as_str());
    }
    out.append("</a>\n</div>\n</nav>\n");
    assert(out@ =~= start + switcher_html(*p));
}

/// The light/dark/system theme toggle of the avatar menu.
pub open spec fn theme_row_html(p: LandingPage) -> Seq<char> {
    "<div class=\"avatar-menu-theme-row\" role=\"group\" aria-label=\""@
        + escape_html(translation(p.tr@, "menu.theme"@))
        + "\">\n<button class=\"theme-option\" type=\"button\" data-theme=\"light\">"@
        + escape_html(translation(p.tr@, "menu.theme_light"@))
        + "</button>\n<button class=\"theme-option\" type=\"button\" data-theme=\"dark\">"@
        + escape_html(translation(p.tr@, "menu.theme_dark"@))
        + "</button>\n<button class=\"theme-option\" type=\"button\" data-theme=\"system\">"@
        + escape_html(translation(p.tr@, "menu.theme_system"@))
        + "</button>\n</div>\n"@
}

fn push_theme_row_html(out: &mut String, p: &LandingPage)
    ensures
        final(out)@ == old(out)@ + theme_row_html(*p),
{
    let ghost start = out@;
    out.append("<div class=\"avatar-menu-theme-row\" role=\"group\" aria-label=\"");
    {
        let text = p.tr.get("menu.theme");
        push_escaped(out, text.as_str());
    }
    out.append("\">\n<button class=\"theme-option\" type=\"button\" data-theme=\"light\">");
    {
        let text = p.tr.get("menu.theme_light");
        push_escaped(out, text.as_str());
    }
    out.append("</button>\n<button class=\"theme-option\" type=\"button\" data-theme=\"dark\">");
    {
        let text = p.tr.get("menu.theme_dark");
        push_escaped(out, text.as_str());
    }
    out.append("</button>\n<button class=\"theme-option\" type=\"button\" data-theme=\"system\">");
    {
        let text = p.tr.get("menu.theme_system");
        push_escaped(out, text.as_str());
    }
    out.append("</button>\n</div>\n");
    assert(out@ =~= start + theme_row_html(*p));
}

/// The avatar button of a signed-in visitor: the Gravatar image when there is one (hidden in
/// favour of the letter if it fails to load), and the initial-letter circle.
pub open spec fn avatar_trigger_html(p: LandingPage) -> Seq<char> {
    "<button class=\"avatar-menu-trigger\" type=\"button\" aria-haspopup=\"true\">\n"@
        + (match p.avatar_gravatar_url { Some(g) => "<img class=\"avatar-menu-avatar\" src=\""@ + escape_html(g@) + "\" alt=\"\" onerror=\"this.style.display='none'; this.nextElementSibling.style.display='flex';\">\n<span class=\"avatar-menu-fallback\" style=\"display:none\">"@ + escape_html(p.avatar_initial@) + "</span>\n"@, None => "<span class=\"avatar-menu-fallback\">"@ + escape_html(p.avatar_initial@) + "</span>\n"@ })
        + "</button>\n"@
}

fn push_avatar_trigger_html(out: &mut String, p: &LandingPage)
    ensures
        final(out)@ == old(out)@ + avatar_trigger_html(*p),
{
    let ghost start = out@;
    out.append("<button class=\"avatar-menu-trigger\" type=\"button\" aria-haspopup=\"true\">\n");
    match &p.avatar_gravatar_url {
        Some(g) => {
            out.append("<img class=\"avatar-menu-avatar\" src=\"");
            push_escaped(out, g.as_str());
            out.append("\" alt=\"\" onerror=\"this.style.display='none'; this.nextElementSibling.style.display='flex';\">\n<span class=\"avatar-menu-fallback\" style=\"display:none\">");
            push_escaped(out, p.avatar_initial.as_str());
            out.append("</span>\n");
        },
        None => {
            out.append("<span class=\"avatar-menu-fallback\">");
            push_escaped(out, p.avatar_initial.as_str());
            out.append("</span>\n");
        },
    }
    out.append("</button>\n");
    assert(out@ =~= start + avatar_trigger_html(*p));
}

/// The signed-in visitor's name and, when the session has one, email.
pub open spec fn identity_html(p: LandingPage) -> Seq<char> {
    "<div class=\"avatar-menu-panel\" role=\"menu\">\n<div class=\"avatar-menu-name\">"@
        + (match p.current_user_name { Some(n) => escape_html(n@), None => Seq::<char>::empty() })
        + "</div>\n"@
        + (match p.current_user_email { Some(e) => "<div class=\"avatar-menu-email\">"@ + escape_html(e@) + "</div>\n"@, None => Seq::<char>::empty() })
}

fn push_identity_html(out: &mut String, p: &LandingPage)
    ensures
        final(out)@ == old(out)@ + identity_html(*p),
{
    let ghost start = out@;
    out.append("<div class=\"avatar-menu-panel\" role=\"menu\">\n<div class=\"avatar-menu-name\">");
    match &p.current_user_name {
        Some(n) => {
            push_escaped(out, n.as_str());
        },
        None => {
        },
    }
    out.append("</div>\n");
    match &p.current_user_email {
        Some(e) => {
            out.append("<div class=\"avatar-menu-email\">");
            push_escaped(out, e.as_str());
            out.append("</div>\n");
        },
        None => {
        },
    }
    assert(out@ =~= start + identity_html(*p));
}

/// The user-settings item, and the admin item for admins.
pub open spec fn account_items_html(p: LandingPage) -> Seq<char> {
    "<a class=\"avatar-menu-item\" href=\""@
        + escape_html(p.user_settings_url@)
        + "\">"@
        + escape_html(translation(p.tr@, "menu.user_settings"@))
        + "</a>\n"@
        + (if p.is_admin { "<a class=\"avatar-menu-item\" href=\""@ + escape_html(p.admin_url@) + "\">"@ + escape_html(translation(p.tr@, "menu.administration"@)) + "</a>\n"@ } else { Seq::<char>::empty() })
}

fn push_account_items_html(out: &mut String, p: &LandingPage)
    ensures
        final(out)@ == old(out)@ + account_items_html(*p),
{
    let ghost start = out@;
    out.append("<a class=\"avatar-menu-item\" href=\"");
    push_escaped(out, p.user_settings_url.as_str());
    out.append("\">");
    {
        let text = p.tr.get("menu.user_settings");
        push_escaped(out, text.as_str());
    }
    out.append("</a>\n");
    if p.is_admin {
        out.append("<a class=\"avatar-menu-item\" href=\"");
        push_escaped(out, p.admin_url.as_str());
        out.append("\">");
        {
            let text = p.tr.get("menu.administration");
            push_escaped(out, text.as_str());
        }
        out.append("</a>\n");
    } else {
    }
    assert(out@ =~= start + account_items_html(*p));
}

/// The log-out form.
pub open spec fn log_out_html(p: LandingPage) -> Seq<char> {
    "<form method=\"post\" action=\""@
        + escape_html(p.logout_url@)
        + "\"><button class=\"avatar-menu-item avatar-menu-item-danger\" type=\"submit\">"@
        + escape_html(translation(p.tr@, "menu.log_out"@))
        + "</button></form>\n</div>\n"@
}

fn push_log_out_html(out: &mut String, p: &LandingPage)
    ensures
        final(out)@ == old(out)@ + log_out_html(*p),
{
    let ghost start = out@;
    out.append("<form method=\"post\" action=\"");
    push_escaped(out, p.logout_url.as_str());
    out.append("\"><button class=\"avatar-menu-item avatar-menu-item-danger\" type=\"submit\">");
    {
        let text = p.tr.get("menu.log_out");
        push_escaped(out, text.as_str());
    }
    out.append("</button></form>\n</div>\n");
    assert(out@ =~= start + log_out_html(*p));
}

/// The avatar menu of a signed-in visitor: name, email, settings, admin item for admins, theme
/// row, and the log-out form.
pub open spec fn signed_in_panel_html(p: LandingPage) -> Seq<char> {
    identity_html(p)
        + account_items_html(p)
        + theme_row_html(p)
        + log_out_html(p)
}

fn push_signed_in_panel_html(out: &mut String, p: &LandingPage)
    ensures
        final(out)@ == old(out)@ + signed_in_panel_html(*p),
{
    let ghost start = out@;
    push_identity_html(out, p);
    push_account_items_html(out, p);
    push_theme_row_html(out, p);
    push_log_out_html(out, p);
    assert(out@ =~= start + signed_in_panel_html(*p));
}

/// The avatar menu of a visitor who is not signed in: the placeholder avatar, the theme row and
/// the log-in item.
pub open spec fn signed_out_panel_html(p: LandingPage) -> Seq<char> {
    "<button class=\"avatar-menu-trigger\" type=\"button\" aria-haspopup=\"true\"><img class=\"avatar-menu-mystery\" src=\"/static/img/mystery-man.svg\" alt=\"\"></button>\n<div class=\"avatar-menu-panel\" role=\"menu\">\n"@
        + theme_row_html(p)
        + "<a class=\"avatar-menu-item\" href=\""@
        + escape_html(p.login_url@)
        + "\">"@
        + escape_html(translation(p.tr@, "menu.log_in"@))
        + "</a>\n</div>\n"@
}

fn push_signed_out_panel_html(out: &mut String, p: &LandingPage)
    ensures
        final(out)@ == old(out)@ + signed_out_panel_html(*p),
{
    let ghost start = out@;
    out.append("<button class=\"avatar-menu-trigger\" type=\"button\" aria-haspopup=\"true\"><img class=\"avatar-menu-mystery\" src=\"/static/img/mystery-man.svg\" alt=\"\"></button>\n<div class=\"avatar-menu-panel\" role=\"menu\">\n");
    push_theme_row_html(out, p);
    out.append("<a class=\"avatar-menu-item\" href=\"");
    push_escaped(out, p.login_url.as_str());
    out.append("\">");
    {
        let text = p.tr.get("menu.log_in");
        push_escaped(out, text.as_str());
    }
    out.append("</a>\n</div>\n");
    assert(out@ =~= start + signed_out_panel_html(*p));
}

/// The avatar menu, and the end of the site header.
pub open spec fn avatar_menu_html(p: LandingPage) -> Seq<char> {
    "<div class=\"avatar-menu\">\n"@
        + (if p.current_user_name is Some { avatar_trigger_html(p) + signed_in_panel_html(p) } else { signed_out_panel_html(p) })
        + "</div>\n</header>\n"@
}

fn push_avatar_menu_html(out: &mut String, p: &LandingPage)
    ensures
        final(out)@ == old(out)@ + avatar_menu_html(*p),
{
    let ghost start = out@;
    out.append("<div class=\"avatar-menu\">\n");
    if p.current_user_name.is_some() {
        push_avatar_trigger_html(out, p);
        push_signed_in_panel_html(out, p);
    } else {
        push_signed_out_panel_html(out, p);
    }
    out.append("</div>\n</header>\n");
    assert(out@ =~= start + avatar_menu_html(*p));
}

/// The build footer and the end of the document.
pub open spec fn footer_html(p: LandingPage) -> Seq<char> {
    "<footer class=\"site-footer\">\n<span class=\"footer-version\">v"@
        + escape_html(p.version@)
        + "</span>\n<span class=\"footer-build\">"@
        + escape_html(p.build_date@)
        + " ("@
        + escape_html(p.build_hash@)
        + ")</span>\n</footer>\n<script src=\"/static/js/menus.js\"></script>\n</body>\n</html>\n"@
}

fn push_footer_html(out: &mut String, p: &LandingPage)
    ensures
        final(out)@ == old(out)@ + footer_html(*p),
{
    let ghost start = out@;
    out.append("<footer class=\"site-footer\">\n<span class=\"footer-version\">v");
    push_escaped(out, p.version.as_str());
    out.append("</span>\n<span class=\"footer-build\">");
    push_escaped(out, p.build_date.as_str());
    out.append(" (");
    push_escaped(out, p.build_hash.as_str());
    out.append(")</span>\n</footer>\n<script src=\"/static/js/menus.js\"></script>\n</body>\n</html>\n");
    assert(out@ =~= start + footer_html(*p));
}

/// One banner: its severity picks the style, its message is the text.
pub open spec fn banner_html(severity: Seq<char>, message: Seq<char>) -> Seq<char> {
    "<div class=\"banner banner-"@ + escape_html(severity) + "\" role=\"alert\">"@ + escape_html(
        message,
    ) + "</div>\n"@
}

pub open spec fn banners_html(banners: Seq<Banner>) -> Seq<char>
    decreases banners.len(),
{
    if banners.len() == 0 {
        Seq::empty()
    } else {
        banners_html(banners.drop_last()) + banner_html(
            banners.last().severity@,
            banners.last().message@,
        )
    }
}

fn push_banners_html(out: &mut String, banners: &Vec<Banner>)
    ensures
        final(out)@ == old(out)@ + banners_html(banners@),
{
    let ghost start = out@;
    let mut i: usize = 0;
    assert(banners@.take(0) =~= Seq::<Banner>::empty());
    while i < banners.len()
        invariant
            i <= banners@.len(),
            out@ == start + banners_html(banners@.take(i as int)),
        decreases banners.len() - i,
    {
        let ghost before = out@;
        out.append("<div class=\"banner banner-");
        push_escaped(out, banners[i].severity.as_str());
        out.append("\" role=\"alert\">");
        push_escaped(out, banners[i].message.as_str());
        out.append("</div>\n");
        proof {
            assert(banners@.take(i + 1).drop_last() =~= banners@.take(i as int));
            assert(banners@.take(i + 1).last() == banners@[i as int]);
            assert(out@ =~= before + banner_html(banners@[i as int].severity@, banners@[i as int].message@));
        }
        i = i + 1;
    }
    assert(banners@.take(banners@.len() as int) =~= banners@);
}

/// The maintenance badge of a card: the record's label and description, and its window, as
/// the tooltip.
pub open spec fn badge_html(
    label: Seq<char>,
    description: Seq<char>,
    starts_at: Seq<char>,
    ends_at: Option<Seq<char>>,
    text: Seq<char>,
) -> Seq<char> {
    "<span class=\"tag tag-danger\" title=\""@ + escape_html(label) + ": "@ + escape_html(description)
        + " ("@ + escape_html(starts_at) + (match ends_at {
        Some(e) => " - "@ + escape_html(e),
        None => Seq::<char>::empty(),
    }) + ")\">"@ + escape_html(text) + "</span>\n"@
}

/// The start of an app card: its link, background image, name and description.
pub open spec fn card_open_html(c: AppCard) -> Seq<char> {
    "<a class=\"app-card\" href=\""@ + escape_html(c.href@)
        + "\" style=\"background-image: url('/static/img/"@ + escape_html(c.background@)
        + "')\">\n<div class=\"app-card-body\">\n<h2 class=\"app-card-name\">"@ + escape_html(
        c.name@,
    ) + "</h2>\n<p class=\"app-card-description\">"@ + escape_html(c.description@) + "</p>\n"@
}

/// The "coming soon" tag of a card that has a status.
pub open spec fn card_status_html(c: AppCard) -> Seq<char> {
    if c.has_status {
        "<span class=\"tag tag-muted\">"@ + escape_html(c.status@) + "</span>\n"@
    } else {
        Seq::<char>::empty()
    }
}

/// The maintenance badge of a card, when one applies.
pub open spec fn card_badge_html(c: AppCard, locale: Seq<char>) -> Seq<char> {
    match c.maintenance {
        Some(b) => badge_html(
            b.label@,
            b.description@,
            b.starts_at@,
            crate::landing::opt_view(b.ends_at),
            translation(locale, "cards.maintenance"@),
        ),
        None => Seq::<char>::empty(),
    }
}

/// One app card: its background image, name and description, a "coming soon" tag when it
/// has a status, and its maintenance badge when one applies.
pub open spec fn card_html(c: AppCard, locale: Seq<char>) -> Seq<char> {
    card_open_html(c) + card_status_html(c) + card_badge_html(c, locale) + "</div>\n</a>\n"@
}

pub open spec fn cards_html(cards: Seq<AppCard>, locale: Seq<char>) -> Seq<char>
    decreases cards.len(),
{
    if cards.len() == 0 {
        Seq::empty()
    } else {
        cards_html(cards.drop_last(), locale) + card_html(cards.last(), locale)
    }
}

fn push_card_open_html(out: &mut String, c: &AppCard)
    ensures
        final(out)@ == old(out)@ + card_open_html(*c),
{
    let ghost start = out@;
    out.append("<a class=\"app-card\" href=\"");
    push_escaped(out, c.href);
    out.append("\" style=\"background-image: url('/static/img/");
    push_escaped(out, c.background);
    out.append("')\">\n<div class=\"app-card-body\">\n<h2 class=\"app-card-name\">");
    push_escaped(out, c.name.as_str());
    out.append("</h2>\n<p class=\"app-card-description\">");
    push_escaped(out, c.description.as_str());
    out.append("</p>\n");
    assert(out@ =~= start + card_open_html(*c));
}

fn push_card_status_html(out: &mut String, c: &AppCard)
    ensures
        final(out)@ == old(out)@ + card_status_html(*c),
{
    let ghost start = out@;
    if c.has_status {
        out.append("<span class=\"tag tag-muted\">");
        push_escaped(out, c.status.as_str());
        out.append("</span>\n");
    }
    assert(out@ =~= start + card_status_html(*c));
}

fn push_badge_html(out: &mut String, b: &MaintenanceBadge, p: &LandingPage)
    ensures
        final(out)@ == old(out)@ + badge_html(
            b.label@,
            b.description@,
            b.starts_at@,
            crate::landing::opt_view(b.ends_at),
            translation(p.tr@, "cards.maintenance"@),
        ),
{
    let ghost start = out@;
    out.append("<span class=\"tag tag-danger\" title=\"");
    push_escaped(out, b.label.as_str());
    out.append(": ");
    push_escaped(out, b.description.as_str());
    out.append(" (");
    push_escaped(out, b.starts_at.as_str());
    let ghost mid = out@;
    match &b.ends_at {
        Some(e) => {
            out.append(" - ");
            push_escaped(out, e.as_str());
        },
        None => {},
    }
    assert(out@ =~= mid + (match crate::landing::opt_view(b.ends_at) {
        Some(e) => " - "@ + escape_html(e),
        None => Seq::<char>::empty(),
    }));
    out.append(")\">");
    let text = p.tr.get("cards.maintenance");
    push_escaped(out, text.as_str());
    out.append("</span>\n");
    assert(out@ =~= start + badge_html(
        b.label@,
        b.description@,
        b.starts_at@,
        crate::landing::opt_view(b.ends_at),
        translation(p.tr@, "cards.maintenance"@),
    ));
}

fn push_card_html(out: &mut String, c: &AppCard, p: &LandingPage)
    ensures
        final(out)@ == old(out)@ + card_html(*c, p.tr@),
{
    let ghost start = out@;
    push_card_open_html(out, c);
    push_card_status_html(out, c);
    let ghost mid = out@;
    match &c.maintenance {
        Some(b) => {
            push_badge_html(out, b, p);
        },
        None => {},
    }
    assert(out@ =~= mid + card_badge_html(*c, p.tr@));
    out.append("</div>\n</a>\n");
    assert(out@ =~= start + card_html(*c, p.tr@));
}

fn push_cards_html(out: &mut String, p: &LandingPage)
    ensures
        final(out)@ == old(out)@ + cards_html(p.apps@, p.tr@),
{
    let ghost start = out@;
    let mut i: usize = 0;
    assert(p.apps@.take(0) =~= Seq::<AppCard>::empty());
    while i < p.apps.len()
        invariant
            i <= p.apps@.len(),
            out@ == start + cards_html(p.apps@.take(i as int), p.tr@),
        decreases p.apps.len() - i,
    {
        push_card_html(out, &p.apps[i], p);
        proof {
            assert(p.apps@.take(i + 1).drop_last() =~= p.apps@.take(i as int));
            assert(p.apps@.take(i + 1).last() == p.apps@[i as int]);
            assert(out@ =~= start + cards_html(p.apps@.take(i + 1), p.tr@));
        }
        i = i + 1;
    }
    assert(p.apps@.take(p.apps@.len() as int) =~= p.apps@);
}

/// The banners, the tagline and the card grid.
pub open spec fn main_html(p: LandingPage) -> Seq<char> {
    "<div class=\"banners\">\n"@ + banners_html(p.banners@)
        + "</div>\n<main class=\"landing\">\n<h1 class=\"landing-title\">SweetRPG</h1>\n<p class=\"landing-tagline\">"@
        + escape_html(translation(p.tr@, "landing.tagline"@)) + "</p>\n<div class=\"card-grid\">\n"@
        + cards_html(p.apps@, p.tr@) + "</div>\n</main>\n"@
}

fn push_main_html(out: &mut String, p: &LandingPage)
    ensures
        final(out)@ == old(out)@ + main_html(*p),
{
    let ghost start = out@;
    out.append("<div class=\"banners\">\n");
    push_banners_html(out, &p.banners);
    out.append(
        "</div>\n<main class=\"landing\">\n<h1 class=\"landing-title\">SweetRPG</h1>\n<p class=\"landing-tagline\">",
    );
    let tagline = p.tr.get("landing.tagline");
    push_escaped(out, tagline.as_str());
    out.append("</p>\n<div class=\"card-grid\">\n");
    push_cards_html(out, p);
    out.append("</div>\n</main>\n");
    assert(out@ =~= start + main_html(*p));
}

/// The whole landing page.
pub open spec fn page_html(p: LandingPage) -> Seq<char> {
    head_html(p) + switcher_html(p) + avatar_menu_html(p) + main_html(p) + footer_html(p)
}

impl LandingPage {
    /// Renders the page as HTML.
    pub fn render(&self) -> (res: String)
        ensures
            res@ == page_html(*self),
    {
        let mut out = String::new();
        push_head_html(&mut out, self);
        push_switcher_html(&mut out, self);
        push_avatar_menu_html(&mut out, self);
        push_main_html(&mut out, self);
        push_footer_html(&mut out, self);
        assert(out@ =~= page_html(*self));
        out
    }
}

// ---------------------------------------------------------------------------
// What the rendered page shows

/// Whether `t` occurs in `s` as a contiguous run of characters.
pub open spec fn contains_text(s: Seq<char>, t: Seq<char>) -> bool {
    exists|k: int| 0 <= k && k + t.len() <= s.len() && #[trigger] s.subrange(k, k + t.len()) == t
}

/// `t` occurs in `a + t + b`.
proof fn lemma_contains_in_middle(a: Seq<char>, t: Seq<char>, b: Seq<char>)
    ensures
        contains_text(a + t + b, t),
{
    let s = a + t + b;
    assert(s.subrange(a.len() as int, (a.len() + t.len()) as int) =~= t);
}

/// What occurs in a part of `s` occurs in `s`.
proof fn lemma_contains_trans(s: Seq<char>, t: Seq<char>, u: Seq<char>)
    requires
        contains_text(s, t),
        contains_text(t, u),
    ensures
        contains_text(s, u),
{
    let k = choose|k: int| 0 <= k && k + t.len() <= s.len() && #[trigger] s.subrange(k, k + t.len()) == t;
    let j = choose|j: int| 0 <= j && j + u.len() <= t.len() && #[trigger] t.subrange(j, j + u.len()) == u;
    assert forall|m: int| 0 <= m < u.len() implies #[trigger] s.subrange(k + j, k + j + u.len())[m]
        == u[m] by {
        assert(s.subrange(k, k + t.len())[j + m] == t[j + m]);
        assert(t.subrange(j, j + u.len())[m] == u[m]);
    }
    assert(s.subrange(k + j, k + j + u.len()) =~= u);
}

/// The card grid shows every card.
proof fn lemma_cards_html_contains_card(cards: Seq<AppCard>, locale: Seq<char>, i: int)
    requires
        0 <= i < cards.len(),
    ensures
        contains_text(cards_html(cards, locale), card_html(cards[i], locale)),
    decreases cards.len(),
{
    let front = cards_html(cards.drop_last(), locale);
    let back = card_html(cards.last(), locale);
    if i == cards.len() - 1 {
        lemma_contains_in_middle(front, back, Seq::empty());
        assert(front + back + Seq::<char>::empty() =~= cards_html(cards, locale));
    } else {
        lemma_cards_html_contains_card(cards.drop_last(), locale, i);
        assert(cards.drop_last()[i] == cards[i]);
        lemma_contains_in_middle(Seq::empty(), front, back);
        assert(Seq::<char>::empty() + front + back =~= cards_html(cards, locale));
        lemma_contains_trans(cards_html(cards, locale), front, card_html(cards[i], locale));
    }
}

/// The rendered page shows every card of its grid.
pub proof fn lemma_page_shows_every_card(p: LandingPage, i: int)
    requires
        0 <= i < p.apps@.len(),
    ensures
        contains_text(page_html(p), card_html(p.apps@[i], p.tr@)),
{
    let before = head_html(p) + switcher_html(p) + avatar_menu_html(p) + ("<div class=\"banners\">\n"@
        + banners_html(p.banners@)
        + "</div>\n<main class=\"landing\">\n<h1 class=\"landing-title\">SweetRPG</h1>\n<p class=\"landing-tagline\">"@
        + escape_html(translation(p.tr@, "landing.tagline"@)) + "</p>\n<div class=\"card-grid\">\n"@);
    let grid = cards_html(p.apps@, p.tr@);
    let after = "</div>\n</main>\n"@ + footer_html(p);
    lemma_contains_in_middle(before, grid, after);
    assert(before + grid + after =~= page_html(p));
    lemma_cards_html_contains_card(p.apps@, p.tr@, i);
    lemma_contains_trans(page_html(p), grid, card_html(p.apps@[i], p.tr@));
}

/// A card that has a status shows it, escaped, in a muted tag.
pub proof fn lemma_card_shows_its_status(c: AppCard, locale: Seq<char>)
    requires
        c.has_status,
    ensures
        contains_text(
            card_html(c, locale),
            "<span class=\"tag tag-muted\">"@ + escape_html(c.status@) + "</span>"@,
        ),
{
    reveal_strlit("</span>\n");
    reveal_strlit("</span>");
    reveal_strlit("\n");
    let tag = "<span class=\"tag tag-muted\">"@ + escape_html(c.status@) + "</span>"@;
    let after = "\n"@ + card_badge_html(c, locale) + "</div>\n</a>\n"@;
    lemma_contains_in_middle(card_open_html(c), tag, after);
    assert(card_open_html(c) + tag + after =~= card_html(c, locale));
}

/// Every card of the page that has a status (such as "Coming soon") shows it in the rendered
/// page.
pub proof fn lemma_page_shows_card_status(p: LandingPage, i: int)
    requires
        0 <= i < p.apps@.len(),
        p.apps@[i].has_status,
    ensures
        contains_text(
            page_html(p),
            "<span class=\"tag tag-muted\">"@ + escape_html(p.apps@[i].status@) + "</span>"@,
        ),
{
    lemma_page_shows_every_card(p, i);
    lemma_card_shows_its_status(p.apps@[i], p.tr@);
    lemma_contains_trans(
        page_html(p),
        card_html(p.apps@[i], p.tr@),
        "<span class=\"tag tag-muted\">"@ + escape_html(p.apps@[i].status@) + "</span>"@,
    );
}

/// A card without a status renders the same whatever its status text holds: the text is
/// shown only when the card has a status.
pub proof fn lemma_status_text_unused_without_status(c: AppCard, other: String, locale: Seq<char>)
    requires
        !c.has_status,
    ensures
        card_html(c, locale) == card_html((AppCard { status: other, ..c }), locale),
{
}

} // verus!
