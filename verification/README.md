# hal9000

HAL 9000 analyzes multi-tenant authentication and API logs stored in
Elasticsearch and serves its analyses as Model Context Protocol tools.

- `src/` is the verified library: the Elasticsearch queries and the reading of
  their answers (`es`, over the JSON model of `json`), interval texts
  (`tools::interval`, `decimal`), the time ranges of the tools (`time`,
  `tools::*`), rates as exact fractions (`types`), and the reading of JSON
  array texts and the signing of their items into tokens (`jwt`).
- `app/` is the program: the HTTP exchanges, the conversion of rates and
  percentiles to floating point, the spike signals, the MCP server, and the two
  token-signing entry points for JavaScript hosts.
- `tests/` runs the library on concrete inputs.
