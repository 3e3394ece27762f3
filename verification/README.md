# polywrap

A verified core of the Polywrap client bindings, written in Verus.

- `src/manifest`: project manifest formats, the 0.1.0 to 0.2.0 migration, the
  search for a shortest run of migrators, and bringing a manifest to the latest
  format by semver precedence.
- `src/msgpack`: a msgpack value model with its byte encoding, and the framing
  of generic maps as msgpack extension values.
- `src/native`: wrap URIs, the bindings' errors and their client form,
  resolution results, resolver-likes and the static resolver table.
- `src/ffi_c`: the tags and buffers of the C interface.
- `app/`: serde forms of the manifests and generic maps, error reports and
  conversions to and from the `polywrap_core` types.

## What is not here

- The Java, C and Swift bindings (JNI entry points, C pointers and buffers,
  uniffi glue), the client, builder, invoker, loader calls, wasm and plugin
  wrappers and packages, and the resolvers' lookups. They are calls into
  `polywrap_client`, `polywrap_resolvers`, `polywrap_plugin`, `polywrap_wasm`,
  the plugin crates and `jni`, which this crate does not depend on: the wasm
  runtime they pull in is far larger than the rest of the dependencies
  together. The pieces of their logic that stand on their own are here: URI
  parsing, the error conversions, the kinds and tags, the resolver-like
  conversion and the static resolver's table.
- Schema validation of manifests: the JSON schemas are not part of the
  sources, `polywrap_core` 0.1.11 has no manifest options type, and
  `jsonschema` is not a dependency.
- The tool that fetches the schemas and generates the manifest types
  (`ureq`, `handlebars`); only its version-suffix helper is here.
