use vstd::prelude::*;

use crate::admin::MaintenanceMode;
use crate::i18n::{translation, Tr};
use crate::admin::Banner;
use crate::build_info::BuildInfo;
use crate::config::Config;
use crate::session::SessionUser;
use crate::text::{
    char_to_uppercase, chars_of, lower_hex, lower_hex_chars, str_eq, string_from_chars, to_lowercase,
    trim, trim_spec, unicode_lowercase, unicode_uppercase,
};
use vstd::utf8::encode_utf8;

verus! {

broadcast use vstd::string::group_string_axioms;

// ---------------------------------------------------------------------------
// The app cards

/// One card of the landing page's grid, linking out to an app of the suite.
pub struct AppCard {
    pub name: String,
    pub description: String,
    pub href: &'static str,
    pub has_status: bool,
    pub status: String,
    pub background: &'static str,
    /// The `service:<name>` scope the card's app registers with `admin-api`, or `None` for a
    /// card with no backing service yet (Systems) - such a card never shows a maintenance
    /// badge, since no scope exists to query.
    pub service_scope: Option<&'static str>,
    /// Set from the active maintenance-mode records once they are fetched.
    pub maintenance: Option<MaintenanceBadge>,
}

/// What an app card's maintenance badge tooltip shows.
pub struct MaintenanceBadge {
    pub label: String,
    pub description: String,
    pub starts_at: String,
    pub ends_at: Option<String>,
}

pub struct BadgeView {
    pub label: Seq<char>,
    pub description: Seq<char>,
    pub starts_at: Seq<char>,
    pub ends_at: Option<Seq<char>>,
}

pub struct AppCardView {
    pub name: Seq<char>,
    pub description: Seq<char>,
    pub href: Seq<char>,
    pub has_status: bool,
    pub status: Seq<char>,
    pub background: Seq<char>,
    pub service_scope: Option<Seq<char>>,
    pub maintenance: Option<BadgeView>,
}

pub open spec fn opt_view(o: Option<String>) -> Option<Seq<char>> {
    match o {
        Some(s) => Some(s@),
        None => None,
    }
}

impl View for MaintenanceBadge {
    type V = BadgeView;

    open spec fn view(&self) -> BadgeView {
        BadgeView {
            label: self.label@,
            description: self.description@,
            starts_at: self.starts_at@,
            ends_at: opt_view(self.ends_at),
        }
    }
}

impl View for AppCard {
    type V = AppCardView;

    open spec fn view(&self) -> AppCardView {
        AppCardView {
            name: self.name@,
            description: self.description@,
            href: self.href@,
            has_status: self.has_status,
            status: self.status@,
            background: self.background@,
            service_scope: match self.service_scope {
                Some(s) => Some(s@),
                None => None,
            },
            maintenance: match self.maintenance {
                Some(b) => Some(b@),
                None => None,
            },
        }
    }
}

pub open spec fn cards_view(cards: Seq<AppCard>) -> Seq<AppCardView> {
    cards.map_values(|c: AppCard| c@)
}

/// A card as the suite lists it, before maintenance state is known.
pub open spec fn card_spec(
    locale: Seq<char>,
    name_key: Seq<char>,
    description_key: Seq<char>,
    href: Seq<char>,
    coming_soon: bool,
    background: Seq<char>,
    scope: Option<Seq<char>>,
) -> AppCardView {
    AppCardView {
        name: translation(locale, name_key),
        description: translation(locale, description_key),
        href,
        has_status: coming_soon,
        status: if coming_soon {
            translation(locale, "cards.coming_soon"@)
        } else {
            Seq::empty()
        },
        background,
        service_scope: scope,
        maintenance: None,
    }
}

/// The suite's apps, in display order. Only the catalogue is live; the rest are marked
/// coming soon. Systems has no backing service yet, so no scope.
pub open spec fn landing_cards(locale: Seq<char>) -> Seq<AppCardView> {
    seq![
        card_spec(locale, "cards.catalogue.name"@, "cards.catalogue.description"@, "/catalog"@, false, "catalog-card-back.png"@, Some("service:catalog"@)),
        card_spec(locale, "cards.game_room.name"@, "cards.game_room.description"@, "/game-room"@, true, "game-room-card-back.jpg"@, Some("service:game_room"@)),
        card_spec(locale, "cards.initiative.name"@, "cards.initiative.description"@, "#"@, true, "initiative-card-back.png"@, Some("service:initiative"@)),
        card_spec(locale, "cards.systems.name"@, "cards.systems.description"@, "#"@, true, "systems-card-back.jpg"@, None),
        card_spec(locale, "cards.profile.name"@, "cards.profile.description"@, "#"@, true, "profile-card-back.jpg"@, Some("service:users"@)),
    ]
}

/// The suite's app list, in the translator's locale.
pub fn apps(tr: &Tr) -> (res: Vec<AppCard>)
    ensures
        cards_view(res@) == landing_cards(tr@),
{
    let coming_soon = tr.get("cards.coming_soon");
    let mut v: Vec<AppCard> = Vec::new();
    v.push(
        AppCard {
            name: tr.get("cards.catalogue.name"),
            description: tr.get("cards.catalogue.description"),
            href: "/catalog",
            has_status: false,
            status: String::new(),
            background: "catalog-card-back.png",
            service_scope: Some("service:catalog"),
            maintenance: None,
        },
    );
    v.push(
        AppCard {
            name: tr.get("cards.game_room.name"),
            description: tr.get("cards.game_room.description"),
            href: "/game-room",
            has_status: true,
            status: coming_soon.clone(),
            background: "game-room-card-back.jpg",
            service_scope: Some("service:game_room"),
            maintenance: None,
        },
    );
    v.push(
        AppCard {
            name: tr.get("cards.initiative.name"),
            description: tr.get("cards.initiative.description"),
            href: "#",
            has_status: true,
            status: coming_soon.clone(),
            background: "initiative-card-back.png",
            service_scope: Some("service:initiative"),
            maintenance: None,
        },
    );
    v.push(
        AppCard {
            name: tr.get("cards.systems.name"),
            description: tr.get("cards.systems.description"),
            href: "#",
            has_status: true,
            status: coming_soon.clone(),
            background: "systems-card-back.jpg",
            service_scope: None,
            maintenance: None,
        },
    );
    v.push(
        AppCard {
            name: tr.get("cards.profile.name"),
            description: tr.get("cards.profile.description"),
            href: "#",
            has_status: true,
            status: coming_soon.clone(),
            background: "profile-card-back.jpg",
            service_scope: Some("service:users"),
            maintenance: None,
        },
    );
    assert(cards_view(v@) =~= landing_cards(tr@));
    v
}


/// The suite's apps, by the id their copy is keyed under (`cards.<id>.name`,
/// `cards.<id>.description`), in display order.
pub open spec fn suite_app_ids() -> Seq<Seq<char>> {
    seq!["catalogue"@, "game_room"@, "initiative"@, "systems"@, "profile"@]
}

/// Each card shows the name and the description of one and the same app, the apps coming in
/// the suite's order.
pub proof fn lemma_card_copy_belongs_to_its_app(locale: Seq<char>)
    ensures
        landing_cards(locale).len() == suite_app_ids().len(),
        forall|i: int|
            0 <= i < suite_app_ids().len() ==> (#[trigger] landing_cards(locale)[i]).name
                == translation(locale, "cards."@ + suite_app_ids()[i] + ".name"@)
                && landing_cards(locale)[i].description == translation(
                locale,
                "cards."@ + suite_app_ids()[i] + ".description"@,
            ),
{
    reveal_strlit("cards.");
    reveal_strlit(".name");
    reveal_strlit(".description");
    reveal_strlit("catalogue");
    reveal_strlit("game_room");
    reveal_strlit("initiative");
    reveal_strlit("systems");
    reveal_strlit("profile");
    reveal_strlit("cards.catalogue.name");
    reveal_strlit("cards.catalogue.description");
    reveal_strlit("cards.game_room.name");
    reveal_strlit("cards.game_room.description");
    reveal_strlit("cards.initiative.name");
    reveal_strlit("cards.initiative.description");
    reveal_strlit("cards.systems.name");
    reveal_strlit("cards.systems.description");
    reveal_strlit("cards.profile.name");
    reveal_strlit("cards.profile.description");
    let ids = suite_app_ids();
    assert("cards."@ + ids[0] + ".name"@ =~= "cards.catalogue.name"@);
    assert("cards."@ + ids[0] + ".description"@ =~= "cards.catalogue.description"@);
    assert("cards."@ + ids[1] + ".name"@ =~= "cards.game_room.name"@);
    assert("cards."@ + ids[1] + ".description"@ =~= "cards.game_room.description"@);
    assert("cards."@ + ids[2] + ".name"@ =~= "cards.initiative.name"@);
    assert("cards."@ + ids[2] + ".description"@ =~= "cards.initiative.description"@);
    assert("cards."@ + ids[3] + ".name"@ =~= "cards.systems.name"@);
    assert("cards."@ + ids[3] + ".description"@ =~= "cards.systems.description"@);
    assert("cards."@ + ids[4] + ".name"@ =~= "cards.profile.name"@);
    assert("cards."@ + ids[4] + ".description"@ =~= "cards.profile.description"@);
}

/// Only the first card (the catalogue) is live; every other card is marked coming soon.
pub proof fn lemma_only_first_card_is_live(locale: Seq<char>)
    ensures
        forall|i: int|
            0 <= i < landing_cards(locale).len() ==> ((#[trigger] landing_cards(locale)[i]).has_status
                <==> i != 0),
        forall|i: int|
            0 <= i < landing_cards(locale).len() && (#[trigger] landing_cards(locale)[i]).has_status
                ==> landing_cards(locale)[i].status == translation(locale, "cards.coming_soon"@),
{
}

// ---------------------------------------------------------------------------
// Maintenance badges

/// The first record of `records` that is platform-wide.
pub open spec fn first_platform_record(records: Seq<MaintenanceMode>) -> Option<MaintenanceMode>
    decreases records.len(),
{
    if records.len() == 0 {
        None
    } else if records[0].scope_type@ == "platform"@ {
        Some(records[0])
    } else {
        first_platform_record(records.drop_first())
    }
}

/// The first record of `records` for the service named `service`.
pub open spec fn first_service_record(records: Seq<MaintenanceMode>, service: Seq<char>) -> Option<
    MaintenanceMode,
>
    decreases records.len(),
{
    if records.len() == 0 {
        None
    } else if records[0].scope_type@ == "service"@ && records[0].scope_value@ == service {
        Some(records[0])
    } else {
        first_service_record(records.drop_first(), service)
    }
}

/// `s` with every leading occurrence of `p` removed (`str::trim_start_matches`).
pub open spec fn strip_prefixes(s: Seq<char>, p: Seq<char>) -> Seq<char>
    decreases s.len(),
{
    if p.len() > 0 && p.len() <= s.len() && s.take(p.len() as int) == p {
        strip_prefixes(s.skip(p.len() as int), p)
    } else {
        s
    }
}

pub open spec fn badge_view(m: MaintenanceMode) -> BadgeView {
    BadgeView {
        label: m.label@,
        description: m.description@,
        starts_at: m.starts_at@,
        ends_at: opt_view(m.ends_at),
    }
}

/// The badge a card with service scope `scope` shows: the first active record of its own
/// service, else the first platform-wide record, else none.
pub open spec fn maintenance_for(scope: Seq<char>, records: Seq<MaintenanceMode>) -> Option<
    BadgeView,
> {
    match first_service_record(records, strip_prefixes(scope, "service:"@)) {
        Some(m) => Some(badge_view(m)),
        None => match first_platform_record(records) {
            Some(m) => Some(badge_view(m)),
            None => None,
        },
    }
}

/// A card after the maintenance records are applied: a card with a service scope gets the
/// badge [`maintenance_for`] its scope; a card without one keeps what it had.
pub open spec fn card_with_maintenance(card: AppCardView, records: Seq<MaintenanceMode>) -> AppCardView {
    match card.service_scope {
        Some(scope) => AppCardView { maintenance: maintenance_for(scope, records), ..card },
        None => card,
    }
}

impl MaintenanceBadge {
    /// The badge content of a maintenance-mode record.
    pub fn from_mode(mode: &MaintenanceMode) -> (res: MaintenanceBadge)
        ensures
            res@ == badge_view(*mode),
            res.label == mode.label,
            res.description == mode.description,
            res.starts_at == mode.starts_at,
            res.ends_at == mode.ends_at,
    {
        MaintenanceBadge {
            label: mode.label.clone(),
            description: mode.description.clone(),
            starts_at: mode.starts_at.clone(),
            ends_at: match &mode.ends_at {
                Some(e) => Some(e.clone()),
                None => None,
            },
        }
    }
}

fn find_platform_record(records: &[MaintenanceMode]) -> (res: Option<usize>)
    ensures
        match res {
            Some(i) => i < records@.len() && first_platform_record(records@) == Some(records@[i as int]),
            None => first_platform_record(records@) is None,
        },
{
    let mut i: usize = 0;
    assert(records@.skip(0) =~= records@);
    while i < records.len()
        invariant
            i <= records@.len(),
            first_platform_record(records@) == first_platform_record(records@.skip(i as int)),
        decreases records.len() - i,
    {
        assert(records@.skip(i as int)[0] == records@[i as int]);
        if str_eq(records[i].scope_type.as_str(), "platform") {
            return Some(i);
        }
        assert(records@.skip(i as int).drop_first() =~= records@.skip(i + 1));
        i = i + 1;
    }
    None
}

fn find_service_record(records: &[MaintenanceMode], service: &str) -> (res: Option<usize>)
    ensures
        match res {
            Some(i) => i < records@.len() && first_service_record(records@, service@) == Some(
                records@[i as int],
            ),
            None => first_service_record(records@, service@) is None,
        },
{
    let mut i: usize = 0;
    assert(records@.skip(0) =~= records@);
    while i < records.len()
        invariant
            i <= records@.len(),
            first_service_record(records@, service@) == first_service_record(
                records@.skip(i as int),
                service@,
            ),
        decreases records.len() - i,
    {
        assert(records@.skip(i as int)[0] == records@[i as int]);
        if str_eq(records[i].scope_type.as_str(), "service") && str_eq(
            records[i].scope_value.as_str(),
            service,
        ) {
            return Some(i);
        }
        assert(records@.skip(i as int).drop_first() =~= records@.skip(i + 1));
        i = i + 1;
    }
    None
}

fn starts_with_at(s: &[char], start: usize, p: &[char]) -> (res: bool)
    requires
        start <= s@.len(),
    ensures
        res == (p@.len() <= s@.len() - start && s@.skip(start as int).take(p@.len() as int) == p@),
{
    if p.len() > s.len() - start {
        return false;
    }
    let mut k: usize = 0;
    while k < p.len()
        invariant
            k <= p@.len() <= s@.len() - start,
            s@.len() == s.len(),
            forall|j: int| 0 <= j < k ==> s@[start + j] == p@[j],
        decreases p.len() - k,
    {
        if s[start + k] != p[k] {
            assert(s@.skip(start as int).take(p@.len() as int)[k as int] != p@[k as int]);
            return false;
        }
        k = k + 1;
    }
    assert(s@.skip(start as int).take(p@.len() as int) =~= p@);
    true
}

/// `scope` without its leading "service:" prefixes.
fn service_name(scope: &str) -> (res: String)
    ensures
        res@ == strip_prefixes(scope@, "service:"@),
{
    let s = crate::text::chars_of(scope);
    let p = crate::text::chars_of("service:");
    proof {
        reveal_strlit("service:");
    }
    let mut i: usize = 0;
    assert(s@.skip(0) =~= s@);
    while starts_with_at(s.as_slice(), i, p.as_slice())
        invariant
            i <= s@.len(),
            p@ == "service:"@,
            p@.len() == 8,
            s@.len() == s.len(),
            strip_prefixes(s@, p@) == strip_prefixes(s@.skip(i as int), p@),
        decreases s@.len() - i,
    {
        assert(s@.skip(i as int).skip(8) =~= s@.skip(i + 8));
        i = i + 8;
    }
    let rest = crate::text::string_from_chars(&s.as_slice()[i..s.len()]);
    assert(s@.subrange(i as int, s@.len() as int) =~= s@.skip(i as int));
    rest
}

/// Sets each card's maintenance badge from the active maintenance-mode records fetched for
/// the platform and the cards' own service scopes. A card's own service-scoped record takes
/// precedence over a platform-wide one.
pub fn apply_maintenance(apps: &mut [AppCard], records: &[MaintenanceMode])
    ensures
        final(apps)@.len() == old(apps)@.len(),
        forall|i: int|
            0 <= i < old(apps)@.len() ==> #[trigger] final(apps)@[i]@ == card_with_maintenance(
                old(apps)@[i]@,
                records@,
            ),
{
    let platform = find_platform_record(records);
    let n = apps.len();
    let mut i: usize = 0;
    while i < n
        invariant
            n == apps@.len() == old(apps)@.len(),
            i <= n,
            platform matches Some(k) ==> k < records@.len() && first_platform_record(records@)
                == Some(records@[k as int]),
            platform is None ==> first_platform_record(records@) is None,
            forall|j: int|
                0 <= j < i ==> #[trigger] apps@[j]@ == card_with_maintenance(old(apps)@[j]@, records@),
            forall|j: int| i <= j < n ==> #[trigger] apps@[j] == old(apps)@[j],
        decreases n - i,
    {
        match apps[i].service_scope {
            Some(scope) => {
                let service = service_name(scope);
                let badge = match find_service_record(records, service.as_str()) {
                    Some(k) => Some(MaintenanceBadge::from_mode(&records[k])),
                    None => match platform {
                        Some(k) => Some(MaintenanceBadge::from_mode(&records[k])),
                        None => None,
                    },
                };
                apps[i].maintenance = badge;
            },
            None => {},
        }
        i = i + 1;
    }
}

/// The scopes the maintenance-mode records are fetched for: "platform", then each card's own
/// service scope, in card order.
pub open spec fn scopes_of(cards: Seq<AppCardView>) -> Seq<Seq<char>>
    decreases cards.len(),
{
    if cards.len() == 0 {
        seq!["platform"@]
    } else {
        match cards.last().service_scope {
            Some(s) => scopes_of(cards.drop_last()).push(s),
            None => scopes_of(cards.drop_last()),
        }
    }
}

pub fn maintenance_scopes(apps: &[AppCard]) -> (res: Vec<&'static str>)
    ensures
        res@.map_values(|s: &str| s@) == scopes_of(cards_view(apps@)),
{
    let mut res: Vec<&'static str> = Vec::new();
    res.push("platform");
    let mut i: usize = 0;
    assert(res@.map_values(|s: &str| s@) =~= scopes_of(cards_view(apps@.take(0))));
    while i < apps.len()
        invariant
            i <= apps@.len(),
            res@.map_values(|s: &str| s@) == scopes_of(cards_view(apps@.take(i as int))),
        decreases apps.len() - i,
    {
        proof {
            assert(cards_view(apps@.take(i + 1)).drop_last() =~= cards_view(apps@.take(i as int)));
            assert(cards_view(apps@.take(i + 1)).last() == apps@[i as int]@);
        }
        match apps[i].service_scope {
            Some(s) => {
                res.push(s);
                assert(res@.map_values(|s: &str| s@) =~= scopes_of(cards_view(apps@.take(i as int))).push(s@));
            },
            None => {},
        }
        i = i + 1;
    }
    assert(apps@.take(apps@.len() as int) =~= apps@);
    res
}

/// A card's own service record decides its badge even when a platform-wide record is active.
pub proof fn lemma_service_record_takes_precedence(
    scope: Seq<char>,
    records: Seq<MaintenanceMode>,
    m: MaintenanceMode,
)
    requires
        first_service_record(records, strip_prefixes(scope, "service:"@)) == Some(m),
    ensures
        maintenance_for(scope, records) == Some(badge_view(m)),
{
}

/// A platform-wide record badges every card with a service scope that has no record of its own.
pub proof fn lemma_platform_record_covers_every_service_card(
    card: AppCardView,
    records: Seq<MaintenanceMode>,
    m: MaintenanceMode,
)
    requires
        card.service_scope is Some,
        first_service_record(records, strip_prefixes(card.service_scope->0, "service:"@)) is None,
        first_platform_record(records) == Some(m),
    ensures
        card_with_maintenance(card, records).maintenance == Some(badge_view(m)),
{
}

/// A card without a service scope is left as it was: none is queried for it, so a card that
/// starts without a badge (Systems) never shows one.
pub proof fn lemma_unscoped_card_is_untouched(card: AppCardView, records: Seq<MaintenanceMode>)
    requires
        card.service_scope is None,
    ensures
        card_with_maintenance(card, records) == card,
{
}

/// Without any active record, no card with a service scope shows a badge.
pub proof fn lemma_no_records_no_badges(card: AppCardView)
    requires
        card.service_scope is Some,
    ensures
        card_with_maintenance(card, Seq::<MaintenanceMode>::empty()).maintenance is None,
{
}


/// A badge shows record `m` as it is: its label, its description and its whole window, the
/// end included when `m` has one.
pub open spec fn badge_shows_record(b: BadgeView, m: MaintenanceMode) -> bool {
    &&& b.label == m.label@
    &&& b.description == m.description@
    &&& b.starts_at == m.starts_at@
    &&& match m.ends_at {
        Some(e) => b.ends_at == Some(e@),
        None => b.ends_at is None,
    }
}

/// A card whose own service has an active record shows that record unchanged as its badge.
pub proof fn lemma_service_badge_shows_its_record(
    card: AppCardView,
    records: Seq<MaintenanceMode>,
    m: MaintenanceMode,
)
    requires
        card.service_scope is Some,
        first_service_record(records, strip_prefixes(card.service_scope->0, "service:"@)) == Some(m),
    ensures
        card_with_maintenance(card, records).maintenance matches Some(b) && badge_shows_record(b, m),
{
}

/// A card badged by a platform-wide record shows that record unchanged.
pub proof fn lemma_platform_badge_shows_its_record(
    card: AppCardView,
    records: Seq<MaintenanceMode>,
    m: MaintenanceMode,
)
    requires
        card.service_scope is Some,
        first_service_record(records, strip_prefixes(card.service_scope->0, "service:"@)) is None,
        first_platform_record(records) == Some(m),
    ensures
        card_with_maintenance(card, records).maintenance matches Some(b) && badge_shows_record(b, m),
{
}

// ---------------------------------------------------------------------------
// Login errors

/// The locale key of the message shown for a `login_error` reason code from `auth-web`.
/// Unrecognized reasons (the legacy bare `1` flag among them) get the generic message.
pub open spec fn login_error_key(reason: Seq<char>) -> Seq<char> {
    if reason == "denied"@ {
        "login_error.denied"@
    } else if reason == "expired"@ {
        "login_error.expired"@
    } else if reason == "unavailable"@ {
        "login_error.unavailable"@
    } else if reason == "forbidden"@ {
        "login_error.forbidden"@
    } else {
        "login_error.generic"@
    }
}

/// Maps a `login_error` reason code to a locale key, never echoing the raw value.
pub fn login_error_message_key(reason: &str) -> (res: &'static str)
    ensures
        res@ == login_error_key(reason@),
{
    if str_eq(reason, "denied") {
        "login_error.denied"
    } else if str_eq(reason, "expired") {
        "login_error.expired"
    } else if str_eq(reason, "unavailable") {
        "login_error.unavailable"
    } else if str_eq(reason, "forbidden") {
        "login_error.forbidden"
    } else {
        "login_error.generic"
    }
}

/// Whatever the query carries, the message key is one of five fixed keys: no part of the
/// raw reason reaches the page.
pub proof fn lemma_login_error_key_is_fixed(reason: Seq<char>)
    ensures
        login_error_key(reason) == "login_error.denied"@ || login_error_key(reason)
            == "login_error.expired"@ || login_error_key(reason) == "login_error.unavailable"@
            || login_error_key(reason) == "login_error.forbidden"@ || login_error_key(reason)
            == "login_error.generic"@,
{
}

/// A known reason is shown with the message keyed by that very reason,
/// `login_error.<reason>`; any other reason gets the generic message.
pub proof fn lemma_login_error_key_names_its_reason(reason: Seq<char>)
    ensures
        (reason == "denied"@ || reason == "expired"@ || reason == "unavailable"@ || reason
            == "forbidden"@) ==> login_error_key(reason) == "login_error."@ + reason,
        !(reason == "denied"@ || reason == "expired"@ || reason == "unavailable"@ || reason
            == "forbidden"@) ==> login_error_key(reason) == "login_error.generic"@,
{
    reveal_strlit("login_error.");
    reveal_strlit("denied");
    reveal_strlit("expired");
    reveal_strlit("unavailable");
    reveal_strlit("forbidden");
    reveal_strlit("login_error.denied");
    reveal_strlit("login_error.expired");
    reveal_strlit("login_error.unavailable");
    reveal_strlit("login_error.forbidden");
    assert("login_error."@ + "denied"@ =~= "login_error.denied"@);
    assert("login_error."@ + "expired"@ =~= "login_error.expired"@);
    assert("login_error."@ + "unavailable"@ =~= "login_error.unavailable"@);
    assert("login_error."@ + "forbidden"@ =~= "login_error.forbidden"@);
    assert("denied"@[0] != "expired"@[0]);
    assert("denied"@[0] != "unavailable"@[0]);
    assert("denied"@[0] != "forbidden"@[0]);
    assert("expired"@[0] != "unavailable"@[0]);
    assert("expired"@[0] != "forbidden"@[0]);
    assert("unavailable"@[0] != "forbidden"@[0]);
}

/// Every known reason gets its own message: no two collapse to the same key, and none
/// falls back to the generic one.
pub proof fn lemma_known_login_errors_are_distinct()
    ensures
        login_error_key("denied"@) != login_error_key("expired"@),
        login_error_key("denied"@) != login_error_key("unavailable"@),
        login_error_key("denied"@) != login_error_key("forbidden"@),
        login_error_key("expired"@) != login_error_key("unavailable"@),
        login_error_key("expired"@) != login_error_key("forbidden"@),
        login_error_key("unavailable"@) != login_error_key("forbidden"@),
        login_error_key("denied"@) != "login_error.generic"@,
        login_error_key("expired"@) != "login_error.generic"@,
        login_error_key("unavailable"@) != "login_error.generic"@,
        login_error_key("forbidden"@) != "login_error.generic"@,
{
    reveal_strlit("denied");
    reveal_strlit("expired");
    reveal_strlit("unavailable");
    reveal_strlit("forbidden");
    assert("denied"@[0] != "expired"@[0]);
    assert("denied"@[0] != "unavailable"@[0]);
    assert("denied"@[0] != "forbidden"@[0]);
    assert("expired"@[0] != "unavailable"@[0]);
    assert("expired"@[0] != "forbidden"@[0]);
    assert("unavailable"@[0] != "forbidden"@[0]);
    reveal_strlit("login_error.denied");
    reveal_strlit("login_error.expired");
    reveal_strlit("login_error.unavailable");
    reveal_strlit("login_error.forbidden");
    reveal_strlit("login_error.generic");
    assert("login_error.denied"@[12] != "login_error.expired"@[12]);
    assert("login_error.denied"@[12] != "login_error.unavailable"@[12]);
    assert("login_error.denied"@[12] != "login_error.forbidden"@[12]);
    assert("login_error.expired"@[12] != "login_error.unavailable"@[12]);
    assert("login_error.expired"@[12] != "login_error.forbidden"@[12]);
    assert("login_error.unavailable"@[12] != "login_error.forbidden"@[12]);
    assert("login_error.denied"@[12] != "login_error.generic"@[12]);
    assert("login_error.expired"@[12] != "login_error.generic"@[12]);
    assert("login_error.unavailable"@[12] != "login_error.generic"@[12]);
    assert("login_error.forbidden"@[12] != "login_error.generic"@[12]);
}

// ---------------------------------------------------------------------------
// Outside: MD5

/// The MD5 digest of `data`.
pub uninterp spec fn md5_digest(data: Seq<u8>) -> Seq<u8>;

/// `md5::compute`: the 16 bytes of the digest of `data`.
#[verifier::external_body]
fn md5_compute(data: &[u8]) -> (res: Vec<u8>)
    ensures
        res@ == md5_digest(data@),
        res@.len() == 16,
{
    md5::compute(data).0.to_vec()
}

// ---------------------------------------------------------------------------
// The signed-in visitor

pub const GRAVATAR_PREFIX: &'static str = "https://www.gravatar.com/avatar/";

/// Size 64 and `d=404`, so a visitor with no Gravatar gets a real 404 (and the page falls
/// back to the initial-letter circle) rather than a generic placeholder image.
pub const GRAVATAR_QUERY: &'static str = "?s=64&d=404";

/// The Gravatar image URL of an email: the lowercase hex MD5 of its trimmed, lowercased
/// UTF-8 form.
pub open spec fn gravatar_url_of(email: Seq<char>) -> Seq<char> {
    GRAVATAR_PREFIX@ + lower_hex(md5_digest(encode_utf8(unicode_lowercase(trim_spec(email)))))
        + GRAVATAR_QUERY@
}

/// Builds a Gravatar image URL from a session email, or `None` if no email is present.
pub fn gravatar_url(email: Option<&str>) -> (res: Option<String>)
    ensures
        match email {
            Some(e) => res matches Some(u) && u@ == gravatar_url_of(e@),
            None => res is None,
        },
{
    let email = match email {
        Some(e) => e,
        None => {
            return None;
        },
    };
    let cs = chars_of(email);
    let trimmed = trim(cs.as_slice());
    let lowered = to_lowercase(trimmed.as_slice());
    let lowered = string_from_chars(lowered.as_slice());
    let digest = md5_compute(lowered.as_str().as_bytes());
    let hex = string_from_chars(lower_hex_chars(digest.as_slice()).as_slice());
    let mut url = GRAVATAR_PREFIX.to_owned();
    url.append(hex.as_str());
    url.append(GRAVATAR_QUERY);
    Some(url)
}

/// Whether any of the session's roles is `admin`.
pub open spec fn has_admin_role(roles: Seq<String>) -> bool {
    exists|i: int| 0 <= i < roles.len() && #[trigger] roles[i]@ == "admin"@
}

pub fn is_admin(roles: &Vec<String>) -> (res: bool)
    ensures
        res == has_admin_role(roles@),
{
    let mut i: usize = 0;
    while i < roles.len()
        invariant
            i <= roles@.len(),
            forall|j: int| 0 <= j < i ==> #[trigger] roles@[j]@ != "admin"@,
        decreases roles.len() - i,
    {
        if str_eq(roles[i].as_str(), "admin") {
            return true;
        }
        i = i + 1;
    }
    false
}

/// The avatar's letter: the first character of the name, uppercased; empty for an empty name.
pub open spec fn avatar_initial_of(name: Seq<char>) -> Seq<char> {
    if name.len() == 0 {
        Seq::empty()
    } else {
        unicode_uppercase(name[0])
    }
}

pub fn avatar_initial(name: &str) -> (res: String)
    ensures
        res@ == avatar_initial_of(name@),
{
    let cs = chars_of(name);
    if cs.len() == 0 {
        String::new()
    } else {
        string_from_chars(char_to_uppercase(cs[0]).as_slice())
    }
}

/// The commit hash as the footer shows it: its first 8 bytes when those end on a character
/// boundary, else all of it.
pub open spec fn short_hash_of(sha: Seq<char>) -> Seq<u8> {
    let b = encode_utf8(sha);
    if vstd::utf8::is_char_boundary(b, 8) {
        b.take(8)
    } else {
        b
    }
}

pub fn short_hash(sha: &str) -> (res: String)
    ensures
        encode_utf8(res@) == short_hash_of(sha@),
{
    proof {
        vstd::utf8::encode_utf8_valid_utf8(sha@);
    }
    if sha.is_char_boundary(8) {
        let (head, _) = sha.split_at(8);
        assert(encode_utf8(sha@).len() >= 8);
        assert(encode_utf8(head@) =~= encode_utf8(sha@).take(8));
        head.to_owned()
    } else {
        sha.to_owned()
    }
}


// ---------------------------------------------------------------------------
// The page

pub const LOGIN_URL: &'static str = "/auth/login?return_to=/";
pub const LOGOUT_URL: &'static str = "/auth/logout";
pub const ADMIN_URL: &'static str = "/admin";
pub const USER_SETTINGS_URL: &'static str = "/users/profile";

/// Everything the landing page renders.
pub struct LandingPage {
    pub shared_url: String,
    pub apps: Vec<AppCard>,
    pub version: String,
    pub build_date: String,
    pub build_hash: String,
    pub banners: Vec<Banner>,
    /// `Some(display name)` when the shared session resolves to a signed-in visitor.
    pub current_user_name: Option<String>,
    /// Shown as a subtitle under the name in the avatar menu, when the session has one.
    pub current_user_email: Option<String>,
    /// First character of `current_user_name`, uppercased; empty when signed out.
    pub avatar_initial: String,
    /// Gravatar image URL derived from the session's email, when it has one.
    pub avatar_gravatar_url: Option<String>,
    /// Whether the session's roles include `admin`; gates the avatar menu's admin item.
    pub is_admin: bool,
    pub login_url: String,
    pub logout_url: String,
    pub admin_url: String,
    pub user_settings_url: String,
    /// Per-request translator: the source of every user-facing string.
    pub tr: Tr,
}

pub open spec fn banners_view(banners: Seq<Banner>) -> Seq<(Seq<char>, Seq<char>)> {
    banners.map_values(|b: Banner| b@)
}

/// The banners shown: a critical login-error banner first when the query carries a
/// `login_error` reason, then the banners `admin-api` returned.
pub open spec fn page_banners(
    fetched: Seq<(Seq<char>, Seq<char>)>,
    locale: Seq<char>,
    login_error: Option<Seq<char>>,
) -> Seq<(Seq<char>, Seq<char>)> {
    match login_error {
        Some(reason) => seq![("critical"@, translation(locale, login_error_key(reason)))] + fetched,
        None => fetched,
    }
}

pub open spec fn user_name(user: Option<SessionUser>) -> Option<Seq<char>> {
    match user {
        Some(u) => Some(u.name@),
        None => None,
    }
}

pub open spec fn user_email(user: Option<SessionUser>) -> Option<Seq<char>> {
    match user {
        Some(u) => opt_view(u.email),
        None => None,
    }
}

pub open spec fn user_initial(user: Option<SessionUser>) -> Seq<char> {
    match user {
        Some(u) => avatar_initial_of(u.name@),
        None => Seq::empty(),
    }
}

pub open spec fn user_gravatar(user: Option<SessionUser>) -> Option<Seq<char>> {
    match user {
        Some(u) => match u.email {
            Some(e) => Some(gravatar_url_of(e@)),
            None => None,
        },
        None => None,
    }
}

pub open spec fn user_is_admin(user: Option<SessionUser>) -> bool {
    match user {
        Some(u) => has_admin_role(u.roles@),
        None => false,
    }
}

/// A signed-in visitor's email, when the session has one, is shown as is; a visitor without
/// an email, or a signed-out one, has none shown. The email is shown exactly when a Gravatar
/// image is derived from it.
pub proof fn lemma_visitor_email_is_shown(user: Option<SessionUser>)
    ensures
        user matches Some(u) ==> match u.email {
            Some(e) => user_email(user) == Some(e@),
            None => user_email(user) is None,
        },
        user is None ==> user_email(user) is None,
        user_email(user) is Some <==> user_gravatar(user) is Some,
{
}

fn option_clone(o: &Option<String>) -> (res: Option<String>)
    ensures
        res == *o,
{
    match o {
        Some(s) => Some(s.clone()),
        None => None,
    }
}

/// Assembles the landing page from what the request resolved to and what was fetched: the
/// cards with their maintenance badges, the banners (with any login error first), the
/// signed-in visitor's avatar menu, and the build footer.
pub fn landing_page(
    config: &Config,
    build_info: &BuildInfo,
    tr: Tr,
    apps: Vec<AppCard>,
    maintenance_records: &[MaintenanceMode],
    banners: Vec<Banner>,
    login_error: Option<&str>,
    current_user: Option<SessionUser>,
) -> (res: LandingPage)
    ensures
        res.shared_url@ == config.shared_url@,
        cards_view(res.apps@) == cards_view(apps@).map_values(
            |c: AppCardView| card_with_maintenance(c, maintenance_records@),
        ),
        res.version@ == build_info.version@,
        res.build_date@ == build_info.date@,
        encode_utf8(res.build_hash@) == short_hash_of(build_info.sha@),
        banners_view(res.banners@) == page_banners(
            banners_view(banners@),
            tr@,
            match login_error {
                Some(r) => Some(r@),
                None => None,
            },
        ),
        opt_view(res.current_user_name) == user_name(current_user),
        opt_view(res.current_user_email) == user_email(current_user),
        current_user matches Some(u) ==> res.current_user_email == u.email,
        current_user is None ==> res.current_user_email is None,
        res.avatar_initial@ == user_initial(current_user),
        opt_view(res.avatar_gravatar_url) == user_gravatar(current_user),
        res.is_admin == user_is_admin(current_user),
        res.login_url@ == LOGIN_URL@,
        res.logout_url@ == LOGOUT_URL@,
        res.admin_url@ == ADMIN_URL@,
        res.user_settings_url@ == USER_SETTINGS_URL@,
        res.tr@ == tr@,
{
    let ghost given = apps@;
    let mut apps = apps;
    apply_maintenance(apps.as_mut_slice(), maintenance_records);
    proof {
        assert(cards_view(apps@) =~= cards_view(given).map_values(
            |c: AppCardView| card_with_maintenance(c, maintenance_records@),
        ));
    }
    let mut banners = banners;
    let ghost fetched = banners@;
    match login_error {
        Some(reason) => {
            let message = tr.get(login_error_message_key(reason));
            banners.insert(0, Banner { severity: "critical".to_owned(), message });
            assert(banners_view(banners@) =~= seq![("critical"@, translation(tr@, login_error_key(reason@)))] + banners_view(fetched));
        },
        None => {},
    }
    let (name, email, initial, gravatar, admin) = match &current_user {
        Some(user) => {
            let email = option_clone(&user.email);
            let gravatar = match &user.email {
                Some(e) => gravatar_url(Some(e.as_str())),
                None => None,
            };
            (Some(user.name.clone()), email, avatar_initial(user.name.as_str()), gravatar, is_admin(&user.roles))
        },
        None => (None, None, String::new(), None, false),
    };
    LandingPage {
        shared_url: config.shared_url.clone(),
        apps,
        version: build_info.version.clone(),
        build_date: build_info.date.clone(),
        build_hash: short_hash(build_info.sha.as_str()),
        banners,
        current_user_name: name,
        current_user_email: email,
        avatar_initial: initial,
        avatar_gravatar_url: gravatar,
        is_admin: admin,
        login_url: LOGIN_URL.to_owned(),
        logout_url: LOGOUT_URL.to_owned(),
        admin_url: ADMIN_URL.to_owned(),
        user_settings_url: USER_SETTINGS_URL.to_owned(),
        tr,
    }
}

} // verus!
