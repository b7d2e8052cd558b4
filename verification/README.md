# hq_kanban

The verified core of a desktop market-index dashboard (A-share, Hong Kong and
US indices, intraday charts and K-line charts with a disk cache).

- `src/` is the library, verified with Verus:
  - `request`: request checks (index code, K-line period, bar count), market
    of a code, chart-endpoint code, cache lifetime per period;
  - `endpoints`: the upstream request addresses;
  - `text`: character-level splitting, trimming and word splitting with their
    specifications;
  - `quotes`: GBK decoding (through `encoding_rs`) and parsing of the quote
    service's `v_<code>="f0~f1~...";` lines;
  - `json`: the JSON document model the chart responses are read into;
  - `minute`, `kline`: reading intraday rows and K-line bars out of responses;
  - `cache`: cache file names, freshness, cache entries, wall clock;
  - `kline_fetch`: the K-line cache policy as a state machine, with its laws.
- `app/` is the Tauri shell: commands, HTTP, file I/O, JSON and cache
  serialization, and the floating-point arithmetic on the parsed numbers.
- `tests/` runs the library on concrete inputs.
