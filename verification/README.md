# restdeck

RestDeck is a terminal HTTP client: a sidebar of saved requests and
environments, an editor for the selected request (URL, method, headers,
query parameters, body), and a pane with the last response.

- `src/` is the library, verified with Verus:
  - `text.rs`: trimming, lines, joining, searching, replacing, decimals;
  - `vars.rs`: environment variables and `{{key}}` substitution;
  - `editor.rs`: the text editors (`tui_textarea::TextArea`) seen as lines;
  - `app.rs`: the client state and its operations;
  - `http.rs`: what is sent for a request and shown of a response;
  - `events.rs`: key presses and reports of the request task;
  - `screen.rs`: the choices the screen makes (colours, help line,
    highlighting, scrolling);
  - `laws.rs`: properties that span several operations.
- `app/` is the terminal program: the event loop, drawing, the HTTP task and
  the configuration file.
- `tests/` runs the library on concrete values.

Ctrl-Y switches the sidebar between the collections and the run history,
from any pane, and puts the focus on the sidebar; going back to the
collections reloads the entry under the cursor. In the history mode the
request Ctrl keys are off and the tab pane is read-only. No runs are
recorded, so the history list stays empty and its keys (Up/Down, Enter) do
nothing.
