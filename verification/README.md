# main-web

The landing page of the SweetRPG suite: suite branding, a light/dark/system theme toggle, and a
card grid linking out to each app in the suite, decorated with `admin-api` banners and
maintenance badges and with the visitor's shared session.

Layout:

* `src/` — the library, verified with Verus: configuration (`config`), build metadata
  (`build_info`), locale resolution and translation (`i18n`), the app cards, maintenance badges
  and page assembly (`landing`), the page's HTML (`render`), the `admin-api` cache and fetch
  decisions (`admin`), the shared-session reading (`session`), the request handlers' shared
  state (`state`), and string utilities (`text`).
* `app/` — the service binary: environment and file reading, the Axum routes, the `admin-api`
  HTTP client, the Redis session client, and telemetry.
* `tests/` — tests of the library.
