use vstd::prelude::*;

use axum_extra::extract::CookieJar;
use rust_i18n::Backend;
use rust_i18n::SimpleBackend;
use std::sync::Arc;

use crate::text::{
    chars_of, first_segment, first_segment_of, str_eq, string_from_chars, trim, trim_spec,
};

verus! {

broadcast use vstd::string::group_string_axioms;

/// The default/fallback locale. English catalogs are the only ones shipped today.
pub const DEFAULT_LOCALE: &'static str = "en";

/// Cookie set by a locale-override request; wins over `Accept-Language`.
pub const LOCALE_COOKIE_NAME: &'static str = "locale";

// ---------------------------------------------------------------------------
// Outside: the cookie jar of a request

#[verifier::external_type_specification]
#[verifier::external_body]
pub struct ExCookieJar(CookieJar);

/// The cookies a jar answers lookups with: for each cookie name, its value.
pub uninterp spec fn jar_values(jar: CookieJar) -> Map<Seq<char>, Seq<char>>;

/// `CookieJar::get` followed by `Cookie::value`: the value of the cookie named `name`,
/// or `None` when the jar holds no such cookie.
#[verifier::external_body]
fn cookie_value(jar: &CookieJar, name: &str) -> (res: Option<String>)
    ensures
        res is Some <==> jar_values(*jar).contains_key(name@),
        res matches Some(v) ==> v@ == jar_values(*jar)[name@],
{
    jar.get(name).map(|cookie| cookie.value().to_string())
}

// ---------------------------------------------------------------------------
// Outside: rust-i18n's key/value translation store

#[verifier::external_type_specification]
#[verifier::external_body]
pub struct ExSimpleBackend(SimpleBackend);

/// What a `SimpleBackend` holds: the translated text of each (locale, key) pair.
pub uninterp spec fn backend_entries(backend: SimpleBackend) -> Map<(Seq<char>, Seq<char>), Seq<char>>;

/// `m` after adding `entries` for `locale` in order, a later entry replacing an earlier one
/// with the same key.
pub open spec fn with_entries(
    m: Map<(Seq<char>, Seq<char>), Seq<char>>,
    locale: Seq<char>,
    entries: Seq<(Seq<char>, Seq<char>)>,
) -> Map<(Seq<char>, Seq<char>), Seq<char>>
    decreases entries.len(),
{
    if entries.len() == 0 {
        m
    } else {
        with_entries(m, locale, entries.drop_last()).insert(
            (locale, entries.last().0),
            entries.last().1,
        )
    }
}

/// A translation table without entries.
pub open spec fn empty_table() -> Map<(Seq<char>, Seq<char>), Seq<char>> {
    Map::empty()
}

pub open spec fn entry_views(entries: Seq<(&str, &str)>) -> Seq<(Seq<char>, Seq<char>)> {
    entries.map_values(|e: (&str, &str)| (e.0@, e.1@))
}

/// `SimpleBackend::new`: a backend with no translations.
#[verifier::external_body]
fn new_backend() -> (res: SimpleBackend)
    ensures
        backend_entries(res) == empty_table(),
{
    SimpleBackend::new()
}

/// `SimpleBackend::add_translations`: the entries are gathered into the `HashMap` the
/// method takes (a later entry with the same key replacing an earlier one) and merged into
/// the locale's table, replacing existing keys.
#[verifier::external_body]
fn add_translations(backend: SimpleBackend, locale: &str, entries: &Vec<(&str, &str)>) -> (res:
    SimpleBackend)
    ensures
        backend_entries(res) == with_entries(
            backend_entries(backend),
            locale@,
            entry_views(entries@),
        ),
{
    let data: std::collections::HashMap<&str, &str> = entries.iter().copied().collect();
    let mut backend = backend;
    backend.add_translations(locale, &data);
    backend
}

/// `Backend::translate` on a `SimpleBackend`: the stored text of (locale, key), if any.
#[verifier::external_body]
fn backend_translate(backend: &SimpleBackend, locale: &str, key: &str) -> (res: Option<String>)
    ensures
        res is Some <==> backend_entries(*backend).contains_key((locale@, key@)),
        res matches Some(v) ==> v@ == backend_entries(*backend)[(locale@, key@)],
{
    backend.translate(locale, key).map(String::from)
}


// ---------------------------------------------------------------------------
// The catalog this app ships

/// The English catalog: each translation key with its copy.
pub open spec fn english_catalog() -> Seq<(Seq<char>, Seq<char>)> {
    seq![
        ("nav.main"@, "Main"@),
        ("nav.catalog"@, "Catalog"@),
        ("nav.game_room"@, "Game Room"@),
        ("nav.game_systems"@, "Game Systems"@),
        ("nav.shelf"@, "Shelf"@),
        ("nav.initiative"@, "Initiative"@),
        ("menu.switch_app"@, "Switch app"@),
        ("menu.theme"@, "Theme"@),
        ("menu.theme_light"@, "Light"@),
        ("menu.theme_dark"@, "Dark"@),
        ("menu.theme_system"@, "System"@),
        ("menu.user_settings"@, "User settings"@),
        ("menu.administration"@, "Administration"@),
        ("menu.log_out"@, "Log out"@),
        ("menu.log_in"@, "Log in"@),
        ("landing.tagline"@, "Tools for tabletop roleplaying games, all in one place."@),
        ("cards.maintenance"@, "Maintenance"@),
        ("cards.coming_soon"@, "Coming soon"@),
        ("cards.catalogue.name"@, "Catalogue"@),
        ("cards.catalogue.description"@, "Browse game systems, books, and the rest of the shared library."@),
        ("cards.game_room.name"@, "Game Room"@),
        ("cards.game_room.description"@, "Gather your table and play together online."@),
        ("cards.initiative.name"@, "Initiative!"@),
        ("cards.initiative.description"@, "Track turn order and encounters at the table."@),
        ("cards.systems.name"@, "Systems"@),
        ("cards.systems.description"@, "Explore the rules and settings of supported game systems."@),
        ("cards.profile.name"@, "Profile"@),
        ("cards.profile.description"@, "Manage your account and preferences."@),
        ("login_error.denied"@, "Login was cancelled or access was denied."@),
        ("login_error.expired"@, "Your login session expired. Please try again."@),
        ("login_error.unavailable"@, "Login is temporarily unavailable. Please try again later."@),
        ("login_error.forbidden"@, "Your account is not allowed to sign in here."@),
        ("login_error.generic"@, "Login failed. Please try again."@),
    ]
}

fn english_entries() -> (res: Vec<(&'static str, &'static str)>)
    ensures
        entry_views(res@) == english_catalog(),
{
    let mut v: Vec<(&'static str, &'static str)> = Vec::new();
    v.push(("nav.main", "Main"));
    v.push(("nav.catalog", "Catalog"));
    v.push(("nav.game_room", "Game Room"));
    v.push(("nav.game_systems", "Game Systems"));
    v.push(("nav.shelf", "Shelf"));
    v.push(("nav.initiative", "Initiative"));
    v.push(("menu.switch_app", "Switch app"));
    v.push(("menu.theme", "Theme"));
    v.push(("menu.theme_light", "Light"));
    v.push(("menu.theme_dark", "Dark"));
    v.push(("menu.theme_system", "System"));
    v.push(("menu.user_settings", "User settings"));
    v.push(("menu.administration", "Administration"));
    v.push(("menu.log_out", "Log out"));
    v.push(("menu.log_in", "Log in"));
    v.push(("landing.tagline", "Tools for tabletop roleplaying games, all in one place."));
    v.push(("cards.maintenance", "Maintenance"));
    v.push(("cards.coming_soon", "Coming soon"));
    v.push(("cards.catalogue.name", "Catalogue"));
    v.push(("cards.catalogue.description", "Browse game systems, books, and the rest of the shared library."));
    v.push(("cards.game_room.name", "Game Room"));
    v.push(("cards.game_room.description", "Gather your table and play together online."));
    v.push(("cards.initiative.name", "Initiative!"));
    v.push(("cards.initiative.description", "Track turn order and encounters at the table."));
    v.push(("cards.systems.name", "Systems"));
    v.push(("cards.systems.description", "Explore the rules and settings of supported game systems."));
    v.push(("cards.profile.name", "Profile"));
    v.push(("cards.profile.description", "Manage your account and preferences."));
    v.push(("login_error.denied", "Login was cancelled or access was denied."));
    v.push(("login_error.expired", "Your login session expired. Please try again."));
    v.push(("login_error.unavailable", "Login is temporarily unavailable. Please try again later."));
    v.push(("login_error.forbidden", "Your account is not allowed to sign in here."));
    v.push(("login_error.generic", "Login failed. Please try again."));
    assert(entry_views(v@) =~= english_catalog());
    v
}

/// Every translation the app can render: the English catalog under [`DEFAULT_LOCALE`].
#[verifier::opaque]
pub open spec fn catalog() -> Map<(Seq<char>, Seq<char>), Seq<char>> {
    with_entries(empty_table(), DEFAULT_LOCALE@, english_catalog())
}

/// A backend loaded with [`catalog`].
fn catalog_backend() -> (res: SimpleBackend)
    ensures
        backend_entries(res) == catalog(),
{
    reveal(catalog);
    let backend = new_backend();
    let entries = english_entries();
    add_translations(backend, DEFAULT_LOCALE, &entries)
}

// ---------------------------------------------------------------------------
// Locale fallback: "zh-Hant-CN" -> "zh-Hant" -> "zh" (RFC 4647 lookup)

/// Index of the last `c` in `s`, or -1.
pub open spec fn last_index_of(s: Seq<char>, c: char) -> int
    decreases s.len(),
{
    if s.len() == 0 {
        -1
    } else if s.last() == c {
        s.len() - 1
    } else {
        last_index_of(s.drop_last(), c)
    }
}

/// `s` with every trailing "-x" removed.
pub open spec fn trim_private_use_suffix(s: Seq<char>) -> Seq<char>
    decreases s.len(),
{
    if s.len() >= 2 && s[s.len() - 2] == '-' && s[s.len() - 1] == 'x' {
        trim_private_use_suffix(s.take(s.len() - 2))
    } else {
        s
    }
}

/// The next, less specific locale to try after `locale`, if any.
pub open spec fn parent_locale(locale: Seq<char>) -> Option<Seq<char>> {
    let n = last_index_of(locale, '-');
    if n < 0 {
        None
    } else {
        Some(trim_private_use_suffix(locale.take(n)))
    }
}

/// The text stored for `key` under `locale` or, failing that, under its parent locales.
pub open spec fn lookup(
    table: Map<(Seq<char>, Seq<char>), Seq<char>>,
    locale: Seq<char>,
    key: Seq<char>,
) -> Option<Seq<char>>
    decreases locale.len(),
{
    if table.contains_key((locale, key)) {
        Some(table[(locale, key)])
    } else {
        match parent_locale(locale) {
            Some(p) => if p.len() < locale.len() {
                lookup(table, p, key)
            } else {
                None
            },
            None => None,
        }
    }
}

/// The text shown for `key` in `locale`: its catalog entry, or "<locale>.<key>" (just the
/// key for an empty locale) when the catalog has none.
pub open spec fn translation(locale: Seq<char>, key: Seq<char>) -> Seq<char> {
    match lookup(catalog(), locale, key) {
        Some(v) => v,
        None => if locale.len() == 0 {
            key
        } else {
            locale + "."@ + key
        },
    }
}

/// [`parent_locale`] of a locale's characters.
fn parent_locale_of(locale: &Vec<char>) -> (res: Option<Vec<char>>)
    ensures
        res matches Some(p) ==> parent_locale(locale@) == Some(p@) && p@.len() < locale@.len(),
        res is None ==> parent_locale(locale@) is None,
{
    let mut i: usize = locale.len();
    assert(locale@.take(locale@.len() as int) =~= locale@);
    while i > 0 && locale[i - 1] != '-'
        invariant
            i <= locale@.len(),
            last_index_of(locale@, '-') == last_index_of(locale@.take(i as int), '-'),
        decreases i,
    {
        proof {
            assert(locale@.take(i as int).drop_last() =~= locale@.take(i - 1));
        }
        i = i - 1;
    }
    proof {
        assert(locale@.take(locale@.len() as int) =~= locale@);
    }
    if i == 0 {
        assert(last_index_of(locale@.take(0), '-') == -1);
        return None;
    }
    assert(last_index_of(locale@, '-') == i - 1);
    let mut end: usize = i - 1;
    while end >= 2 && locale[end - 2] == '-' && locale[end - 1] == 'x'
        invariant
            end < i <= locale@.len(),
            trim_private_use_suffix(locale@.take(i - 1)) == trim_private_use_suffix(
                locale@.take(end as int),
            ),
        decreases end,
    {
        proof {
            assert(locale@.take(end as int).take(end - 2) =~= locale@.take(end - 2));
        }
        end = end - 2;
    }
    let mut p: Vec<char> = Vec::new();
    let mut k: usize = 0;
    while k < end
        invariant
            k <= end < locale@.len(),
            p@ == locale@.take(k as int),
        decreases end - k,
    {
        p.push(locale[k]);
        k = k + 1;
        proof {
            assert(p@ =~= locale@.take(k as int));
        }
    }
    proof {
        assert(trim_private_use_suffix(locale@.take(end as int)) == locale@.take(end as int));
    }
    Some(p)
}

/// The shipped catalog, loaded once into a translation backend so that a run of lookups
/// (a whole page) shares it.
pub struct Translations {
    backend: SimpleBackend,
}

impl Translations {
    #[verifier::type_invariant]
    spec fn holds_catalog(self) -> bool {
        backend_entries(self.backend) == catalog()
    }

    /// The translations held.
    pub closed spec fn entries(self) -> Map<(Seq<char>, Seq<char>), Seq<char>> {
        backend_entries(self.backend)
    }

    /// Loads [`catalog`].
    pub fn load() -> (res: Translations)
        ensures
            res.entries() == catalog(),
    {
        Translations { backend: catalog_backend() }
    }

    /// The text shown for `key` in `locale` (see [`translation`]).
    pub fn text(&self, locale: &str, key: &str) -> (res: String)
        ensures
            res@ == translation(locale@, key@),
    {
        proof {
            use_type_invariant(self);
        }
        let mut current: Vec<char> = chars_of(locale);
        loop
            invariant
                backend_entries(self.backend) == catalog(),
                lookup(catalog(), locale@, key@) == lookup(catalog(), current@, key@),
            ensures
                lookup(catalog(), locale@, key@) is None,
            decreases current@.len(),
        {
            let cur = string_from_chars(current.as_slice());
            match backend_translate(&self.backend, cur.as_str(), key) {
                Some(v) => {
                    return v;
                },
                None => {},
            }
            match parent_locale_of(&current) {
                Some(p) => {
                    current = p;
                },
                None => {
                    break;
                },
            }
        }
        if locale.is_empty() {
            key.to_owned()
        } else {
            let mut res = locale.to_owned();
            res.append(".");
            res.append(key);
            res
        }
    }
}

/// Per-request translator handed to the page renderer: the locale every string of a
/// response is looked up in, and the loaded catalog it is looked up from.
#[derive(Clone)]
pub struct Tr {
    locale: String,
    texts: Arc<Translations>,
}

impl View for Tr {
    type V = Seq<char>;

    closed spec fn view(&self) -> Seq<char> {
        self.locale@
    }
}

impl Tr {
    pub fn new(locale: &str) -> (res: Tr)
        ensures
            res@ == locale@,
    {
        Tr { locale: locale.to_owned(), texts: Arc::new(Translations::load()) }
    }

    /// English-only translator, for tests and non-request callers.
    pub fn english() -> (res: Tr)
        ensures
            res@ == DEFAULT_LOCALE@,
    {
        Tr::new(DEFAULT_LOCALE)
    }

    /// The locale this translator renders.
    pub fn locale(&self) -> (res: &str)
        ensures
            res@ == self@,
    {
        self.locale.as_str()
    }

    fn s(&self, key: &str) -> (res: String)
        ensures
            res@ == translation(self@, key@),
    {
        self.texts.text(self.locale.as_str(), key)
    }

    /// Translates an arbitrary key - used for dynamic keys like the per-card
    /// `cards.<id>.name` lookups.
    pub fn get(&self, key: &str) -> (res: String)
        ensures
            res@ == translation(self@, key@),
    {
        self.s(key)
    }

    pub fn nav_main(&self) -> (res: String)
        ensures
            res@ == translation(self@, "nav.main"@),
    {
        self.s("nav.main")
    }

    pub fn nav_catalog(&self) -> (res: String)
        ensures
            res@ == translation(self@, "nav.catalog"@),
    {
        self.s("nav.catalog")
    }

    pub fn nav_game_systems(&self) -> (res: String)
        ensures
            res@ == translation(self@, "nav.game_systems"@),
    {
        self.s("nav.game_systems")
    }

    pub fn nav_shelf(&self) -> (res: String)
        ensures
            res@ == translation(self@, "nav.shelf"@),
    {
        self.s("nav.shelf")
    }

    pub fn nav_initiative(&self) -> (res: String)
        ensures
            res@ == translation(self@, "nav.initiative"@),
    {
        self.s("nav.initiative")
    }

    pub fn menu_switch_app(&self) -> (res: String)
        ensures
            res@ == translation(self@, "menu.switch_app"@),
    {
        self.s("menu.switch_app")
    }

    pub fn menu_theme(&self) -> (res: String)
        ensures
            res@ == translation(self@, "menu.theme"@),
    {
        self.s("menu.theme")
    }

    pub fn menu_theme_light(&self) -> (res: String)
        ensures
            res@ == translation(self@, "menu.theme_light"@),
    {
        self.s("menu.theme_light")
    }

    pub fn menu_theme_dark(&self) -> (res: String)
        ensures
            res@ == translation(self@, "menu.theme_dark"@),
    {
        self.s("menu.theme_dark")
    }

    pub fn menu_theme_system(&self) -> (res: String)
        ensures
            res@ == translation(self@, "menu.theme_system"@),
    {
        self.s("menu.theme_system")
    }

    pub fn menu_user_settings(&self) -> (res: String)
        ensures
            res@ == translation(self@, "menu.user_settings"@),
    {
        self.s("menu.user_settings")
    }

    pub fn menu_administration(&self) -> (res: String)
        ensures
            res@ == translation(self@, "menu.administration"@),
    {
        self.s("menu.administration")
    }

    pub fn menu_log_out(&self) -> (res: String)
        ensures
            res@ == translation(self@, "menu.log_out"@),
    {
        self.s("menu.log_out")
    }

    pub fn menu_log_in(&self) -> (res: String)
        ensures
            res@ == translation(self@, "menu.log_in"@),
    {
        self.s("menu.log_in")
    }

    pub fn landing_tagline(&self) -> (res: String)
        ensures
            res@ == translation(self@, "landing.tagline"@),
    {
        self.s("landing.tagline")
    }

    pub fn cards_maintenance(&self) -> (res: String)
        ensures
            res@ == translation(self@, "cards.maintenance"@),
    {
        self.s("cards.maintenance")
    }

    pub fn cards_coming_soon(&self) -> (res: String)
        ensures
            res@ == translation(self@, "cards.coming_soon"@),
    {
        self.s("cards.coming_soon")
    }
}


// ---------------------------------------------------------------------------
// Choosing the locale of a request

/// The locales this app can actually render: only [`DEFAULT_LOCALE`] today.
pub open spec fn supported_locale(locale: Seq<char>) -> bool {
    locale == DEFAULT_LOCALE@
}

pub fn is_supported_locale(locale: &str) -> (res: bool)
    ensures
        res == supported_locale(locale@),
{
    str_eq(locale, DEFAULT_LOCALE)
}

/// The base language of the first tag of an `Accept-Language` value: the text before the
/// first ',' and then before the first ';', trimmed, up to its first '-'. Quality values are
/// not weighed.
pub open spec fn header_locale(header: Seq<char>) -> Seq<char> {
    first_segment(trim_spec(first_segment(first_segment(header, ','), ';')), '-')
}

/// The locale of a request: a supported locale cookie, else a supported `Accept-Language`
/// base tag, else [`DEFAULT_LOCALE`].
pub open spec fn resolved_locale(cookie: Option<Seq<char>>, header: Option<Seq<char>>) -> Seq<
    char,
> {
    if cookie is Some && supported_locale(cookie->0) {
        cookie->0
    } else if header is Some && supported_locale(header_locale(header->0)) {
        header_locale(header->0)
    } else {
        DEFAULT_LOCALE@
    }
}

pub open spec fn opt_str_view(o: Option<&str>) -> Option<Seq<char>> {
    match o {
        Some(s) => Some(s@),
        None => None,
    }
}

/// The locale cookie a jar carries, if any.
pub open spec fn jar_locale(jar: CookieJar) -> Option<Seq<char>> {
    if jar_values(jar).contains_key(LOCALE_COOKIE_NAME@) {
        Some(jar_values(jar)[LOCALE_COOKIE_NAME@])
    } else {
        None
    }
}

fn header_locale_of(header: &str) -> (res: Vec<char>)
    ensures
        res@ == header_locale(header@),
{
    let cs = chars_of(header);
    let a = first_segment_of(cs.as_slice(), ',');
    let b = first_segment_of(a.as_slice(), ';');
    let t = trim(b.as_slice());
    first_segment_of(t.as_slice(), '-')
}

/// The locale a request resolves to, from its locale cookie value and its
/// `Accept-Language` header value.
pub fn resolve_locale(cookie: Option<&str>, accept_language: Option<&str>) -> (res: String)
    ensures
        res@ == resolved_locale(opt_str_view(cookie), opt_str_view(accept_language)),
{
    if let Some(c) = cookie {
        if is_supported_locale(c) {
            return c.to_owned();
        }
    }
    if let Some(header) = accept_language {
        let base = header_locale_of(header);
        let base = string_from_chars(base.as_slice());
        if is_supported_locale(base.as_str()) {
            return base;
        }
    }
    DEFAULT_LOCALE.to_owned()
}

impl Tr {
    /// Resolves the request's locale: cookie override, then `Accept-Language`, then English.
    pub fn resolve(jar: &CookieJar, accept_language: Option<&str>) -> (res: Tr)
        ensures
            res@ == resolved_locale(jar_locale(*jar), opt_str_view(accept_language)),
    {
        let cookie = cookie_value(jar, LOCALE_COOKIE_NAME);
        let locale = match &cookie {
            Some(c) => resolve_locale(Some(c.as_str()), accept_language),
            None => resolve_locale(None, accept_language),
        };
        Tr::new(locale.as_str())
    }
}

/// Whatever a request carries, it resolves to a locale the app can render.
pub proof fn lemma_resolved_locale_is_supported(
    cookie: Option<Seq<char>>,
    header: Option<Seq<char>>,
)
    ensures
        supported_locale(resolved_locale(cookie, header)),
{
}

/// A supported locale cookie wins over any `Accept-Language` header.
pub proof fn lemma_cookie_overrides_header(cookie: Seq<char>, header: Option<Seq<char>>)
    requires
        supported_locale(cookie),
    ensures
        resolved_locale(Some(cookie), header) == cookie,
{
}

/// An unsupported locale cookie is ignored: the header decides as if there were no cookie.
pub proof fn lemma_unsupported_cookie_is_ignored(cookie: Seq<char>, header: Option<Seq<char>>)
    requires
        !supported_locale(cookie),
    ensures
        resolved_locale(Some(cookie), header) == resolved_locale(None, header),
{
}


proof fn lemma_with_entries_locale(
    locale: Seq<char>,
    entries: Seq<(Seq<char>, Seq<char>)>,
    other: Seq<char>,
    key: Seq<char>,
)
    requires
        other != locale,
    ensures
        !with_entries(empty_table(), locale, entries).contains_key((other, key)),
    decreases entries.len(),
{
    if entries.len() > 0 {
        lemma_with_entries_locale(locale, entries.drop_last(), other, key);
    }
}

/// The catalog holds entries of [`DEFAULT_LOCALE`] only.
pub proof fn lemma_catalog_is_default_locale_only(locale: Seq<char>, key: Seq<char>)
    requires
        locale != DEFAULT_LOCALE@,
    ensures
        !catalog().contains_key((locale, key)),
{
    reveal(catalog);
    lemma_with_entries_locale(DEFAULT_LOCALE@, english_catalog(), locale, key);
}

/// A key of the catalog reads as its catalog copy in the default locale.
pub proof fn lemma_default_locale_reads_catalog(key: Seq<char>)
    requires
        catalog().contains_key((DEFAULT_LOCALE@, key)),
    ensures
        translation(DEFAULT_LOCALE@, key) == catalog()[(DEFAULT_LOCALE@, key)],
{
}

/// A regional variant of the default language ("en-GB", "en-US", ...) reads every catalog
/// key as the language itself does: lookup falls back from the region to the language.
pub proof fn lemma_regional_locale_falls_back_to_language(region: Seq<char>, key: Seq<char>)
    requires
        forall|i: int| 0 <= i < region.len() ==> region[i] != '-',
        catalog().contains_key((DEFAULT_LOCALE@, key)),
    ensures
        translation(DEFAULT_LOCALE@ + "-"@ + region, key) == translation(DEFAULT_LOCALE@, key),
{
    reveal_strlit("en");
    reveal_strlit("-");
    let l = DEFAULT_LOCALE@ + "-"@ + region;
    assert("-"@ =~= seq!['-']);
    assert(l != DEFAULT_LOCALE@) by {
        assert(l.len() != DEFAULT_LOCALE@.len());
    }
    lemma_catalog_is_default_locale_only(l, key);
    lemma_last_index_after_dash(DEFAULT_LOCALE@, region);
    assert(l.take(2) =~= DEFAULT_LOCALE@);
    assert(trim_private_use_suffix(DEFAULT_LOCALE@) == DEFAULT_LOCALE@);
    assert(parent_locale(l) == Some(DEFAULT_LOCALE@));
}

proof fn lemma_last_index_after_dash(prefix: Seq<char>, region: Seq<char>)
    requires
        forall|i: int| 0 <= i < region.len() ==> region[i] != '-',
    ensures
        last_index_of(prefix + seq!['-'] + region, '-') == prefix.len(),
    decreases region.len(),
{
    let s = prefix + seq!['-'] + region;
    if region.len() == 0 {
        assert(s.last() == '-');
    } else {
        assert(s.last() == region.last());
        assert(s.drop_last() =~= prefix + seq!['-'] + region.drop_last());
        lemma_last_index_after_dash(prefix, region.drop_last());
    }
}

/// Adding `entries` for `locale` leaves a text under each of their keys.
proof fn lemma_with_entries_contains(
    m: Map<(Seq<char>, Seq<char>), Seq<char>>,
    locale: Seq<char>,
    entries: Seq<(Seq<char>, Seq<char>)>,
    i: int,
)
    requires
        0 <= i < entries.len(),
    ensures
        with_entries(m, locale, entries).contains_key((locale, entries[i].0)),
    decreases entries.len(),
{
    if i < entries.len() - 1 {
        lemma_with_entries_contains(m, locale, entries.drop_last(), i);
        assert(entries.drop_last()[i] == entries[i]);
    }
}

/// Every key of the English catalog resolves in the default locale to its catalog copy, so
/// an English visitor never sees a raw "<locale>.<key>" placeholder for a key the app defines.
pub proof fn lemma_catalog_keys_resolve_in_default_locale()
    ensures
        forall|i: int|
            0 <= i < english_catalog().len() ==> #[trigger] lookup(
                catalog(),
                DEFAULT_LOCALE@,
                english_catalog()[i].0,
            ) == Some(catalog()[(DEFAULT_LOCALE@, english_catalog()[i].0)]),
{
    reveal(catalog);
    assert forall|i: int| 0 <= i < english_catalog().len() implies #[trigger] lookup(
        catalog(),
        DEFAULT_LOCALE@,
        english_catalog()[i].0,
    ) == Some(catalog()[(DEFAULT_LOCALE@, english_catalog()[i].0)]) by {
        lemma_with_entries_contains(empty_table(), DEFAULT_LOCALE@, english_catalog(), i);
    }
}

} // verus!
