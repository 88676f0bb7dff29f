# frontend-forge

The Frontend Forge controller and build runner for KubeSphere `FrontendIntegration`
resources, with their decision logic verified in Verus.

- `src/` — the verified library:
  - `api`, `resource`: the custom resources and the Kubernetes objects the processes read
    and write, each with its mathematical view;
  - `manifest`: validation of the menu tree and page configurations and rendering of the
    extension manifest (`resolve`, `render`, `pages`, `naming`, `binding`);
  - `controller`: build scheduling, Job reuse, statuses and the patches the controller sends
    (`status`, `job`, `plan`, `patch`);
  - `runner`: artifact selection and the ConfigMap, JSBundle and status a build publishes;
  - `canonical`, `spec_json`: the canonical JSON text (keys sorted, no whitespace) that
    manifest and spec hashes are computed over, and the JSON form of a spec;
  - `labels`, `digest`, `time`, `json`, `text`, `decimal`: shared keys, content hashes,
    instants, the JSON tree and string helpers;
  - `laws`: properties that span several functions.
- `app/` — the processes: `controller` (the reconcile loop against the Kubernetes API),
  `runner` (one build Job) and `crd` (prints the CustomResourceDefinition).
- `tests/` — tests of the library on concrete values.

The FrontendExtension controller (packaging and publishing of extensions) is not part of
this crate.
