# atpage

The logic of atpage.one, a "link in bio" page built on atproto: one page per
handle with the user's links, a Markdown description, and the latest records
the user keeps in other atproto services (blogs, drawings, events, recipes,
reviews and more).

- `src/` is the library, verified with Verus. Each public function states in
  its contract what it returns: the page record and its `putRecord` request,
  the XRPC addresses, the records of each service as the page shows them, the
  feed (newest first, nothing lost), the refresh of a session as a state
  machine, the page's forms (services, links), and Markdown rendering with
  MathML and anchored headings. The laws of the library are public proof
  functions named `law_*`.
- The outside crates (chrono, slug, pulldown-cmark, latex2mathml, itertools)
  are called through small trusted wrappers whose contracts say what their
  documentation and source show.
- `app/` is the web front end (leptos): the components, the HTTP requests, the
  browser storage and the JSON (serde) copies of the library's record types.
- `tests/` runs the library on concrete values.
