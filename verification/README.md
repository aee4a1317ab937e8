# git_dl

The verified core of `git-dl`, a tool that clones a GitHub repository into
`$HOME/workspace/{owner}/{repo}` and can fork it first.

- `src/` is the library, checked by Verus: reading repository references
  (`repo`), the clone URL and target directory, the HTTP requests sent to the
  GitHub API and the reading of its replies (`github_interface`), the reading
  of `gh auth token` output (`token`) and of the command line (`cli`). Each
  public function states its result exactly over spec functions on
  `Seq<char>`; the proof functions state the laws that hold across them.
- `app/` is the program: it reads the environment, talks to GitHub over TLS,
  runs `git`, and gives the library's errors `Display` and `Error`.
- `tests/` runs the library on concrete inputs.
