# session_persistence

Keeping chat sessions on disk: creating, publishing, forking, loading, finding,
searching, cleaning up and deleting them. The decisions are written in Verus and
proved; the files, locks, channels and wire formats stand around them.

## How it is built

A process that touches a disk or a network is a machine from state and event to
the next step. The machine is in `src/`: it says what to do, is told what
happened, and its contract says exactly what follows. The driver that does the
work is in `app/`. What is read from a disk comes in as plain values, taken in
one go, and is decided on in `src/`.

    src/      the verified library
      actor, actor_laws, message, notification, handle, gate
                the persistence actor of a session, its messages and its gate
      stage, publish, copy_publish, writer, lease
                private stages, their publication, and the locks around them
      fork, copy_data, jsonl, checkpoint, segments
                forks: what is taken over, and how it is copied
      resolve, view, summary
                finding the session that a user means
      load, pull, deletion, cleanup, model_switch, search
                opening, deleting and tidying sessions; models; the index
      naming, text, timestamp, io_error, entries, session_files, feedback
                names, texts, times, failures and files
    tests/    what the library does on given values
    app/      the drivers: files, locks, tasks and JSON

## What is trusted

The digest behind lock names (`sha2`), percent-encoding (`urlencoding`), the
reading of one text member of a JSON object (`serde_json`), and `String::push`.
Each is declared where it is used, with what is claimed of it.
