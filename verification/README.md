# arcgis

A client library for ArcGIS REST services (map, geoprocessing, routing,
portal, version management, vector tiles, places and image services).

- `src/` is the library, verified with Verus. It builds every request
  (endpoint, method, form pairs, multipart parts), decides what a response
  means (HTTP status, Esri error bodies, job states, polling back-off,
  export modes) and validates service definitions before they are
  published. Each public function states its result in its contract, and
  the laws that relate several functions are public proof functions.
- `app/` is plain Rust around the library: the HTTP client, JSON
  (de)serialisation of responses, streaming of exported images to files,
  and the job polling loop that follows the library's decisions.
- `tests/` exercises the library through its public API.
