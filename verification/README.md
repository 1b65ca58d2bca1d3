# broken_link_checker

A link checker: it crawls a site breadth first from a root URL (or a local HTML file),
requests every `http`/`https` link it finds, and reports the broken ones (status 404 or 5xx,
or no answer).

- `src/` is the library, verified with Verus: settings and their command-line overrides, the
  validator that decides which links are checked and which pages are crawled, link
  extraction, and the checker itself as a state machine (`engine::Checker::start` and
  `step`) whose every transition is specified by `engine::model::spec_step`. The laws of a
  run (no URL requested twice, no page crawled twice, the depth limit, the report) are proved
  in `engine::laws`. URL parsing and resolution come from the `url` crate and HTML parsing
  from `scraper`, each behind a small trusted wrapper whose result is named by an
  uninterpreted spec function.
- `app/` is the program: command-line parsing (clap), the configuration file (config, serde),
  HTTP (reqwest, tokio) and logging (tracing). It performs the actions the checker asks for
  and hands the outcomes back.
- `tests/` exercises the library with the real `url` and `scraper` crates.
