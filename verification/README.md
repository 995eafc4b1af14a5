# tome

The logic of Tome, a terminal HTTP client, as a library whose behaviour is
stated in contracts and proved with Verus, and a small shell around it.

- `src/` is the library. `template` replaces `{{name}}` placeholders, and
  `template_laws` says what that gives on a text of plain pieces and
  placeholders; `variables` holds the values they take; `requests` builds a request (URL,
  headers, body) from a project and an endpoint and reads what a response
  tells; `projects` holds the stored and the open forms of projects,
  endpoints, headers and variables and the edits made to stored projects;
  `dashboard`, `dashboard_events` and `dashboard_flows` say how the dashboard
  answers keys, messages and the results of disk and network work;
  `dashboard_receive` routes the events the windows publish to the handler
  of the window they come from;
  `windows` and `selectors` are the floating windows and the list selectors;
  `list_window` is the scrolling window the selectors share; `response_view`
  is the response body view, its search and its highlighting.
- `tests/` runs the library on concrete values.
- `app/` is the shell: it reads keys and commands from the terminal, saves
  and reads projects, sends requests, saves and copies responses, hands
  published events to the dashboard (`:event`) and scrolls the response
  (`:scroll`).
