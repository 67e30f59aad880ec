# tsp_ytdlp

A task spooler for yt-dlp: a daemon keeps a queue of URLs, fetches each
URL's title and size, picks a download directory, checks free disk space,
downloads with yt-dlp and moves the file into place; a client adds, removes,
pauses, resumes and lists tasks over a Unix socket.

## Layout

- `src/` — the verified library (Verus). Every decision of the program
  lives here, with its contract:
  - `task`, `tasks`: tasks, their states, the registry and its invariant;
  - `transition`: how a task moves from state to state, as a state machine
    that asks for outside work (yt-dlp runs, directory lookup, free space,
    cache lookup) and takes its outcome;
  - `manager`, `daemon`: the messages between client and daemon, the status
    report, and what each request does;
  - `processor`: which task's operation starts next and what the end of an
    operation does to its task;
  - `serialize`: the tasks file and the recovery of tasks from it;
  - `download`, `locations`: download plans and yt-dlp arguments, the
    download directory of a URL, free disk space;
  - `client`, `cli`, `config`: what the client prints, the command line, the
    configuration file;
  - `common`, `text`: notifications, URL fingerprints and text handling.
- `tests/` — tests of the library on concrete values.
- `app/` — the program around the library: argument parsing, the tokio
  daemon and client, files, processes and notifications.
