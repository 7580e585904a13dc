# common-feeder

A feeder of images and GIFs from Wikimedia Commons and Giphy for a meta-gateway. The
library holds what the feeder decides and computes, proved with Verus; a thin program
around it does the requests, the caching and the serving.

- `src/`: the verified library.
  - `gateway`: the values exchanged with the gateway.
  - `text`, `text_map`: text as a sequence of characters, and a map in the order of its
    keys.
  - `wikicommons`: titles, pages, records, the file type clause of a search, and the steps
    of a search and of fetching a file. The modules whose names end in `laws` state what
    holds of all of it.
  - `giphy`: pictures, records, and the steps of a search and of fetching a picture, with
    their laws.
- `tests/`: what the library does on given inputs.
- `app/`: the program. It runs each search and each fetch step by step: the state says what
  to do outside, and the event says what came of it.

A plugin never waits or sends anything itself. `handle_query` and `compute_outcomes` give
the first state, `resume_query` and `resume_compute` the next one.
