# di_migration

The logic of the DeepIdentifier migration services, as a Verus library whose contracts are
proved, with the services themselves around it.

- `src/` — the verified library. The dev host decides there what a PCP submission must look
  like (`host_routes`), decompresses it within a ceiling (`compression`), answers failures
  (`api_error`), resolves its configuration (`environment`) and keeps the single migration slot
  with the recent results (`migrations`). The dev enclave's echo (`enclave`), the dev CLI's
  decisions (`client`) and the migration API's configuration, subject checks, records and
  answers (`config`, `migration_api`, `attestation`, `api_client`) stand there too.
- `tests/` — tests of the library on concrete values.
- `app/` — the processes: HTTP servers (axum), the Pontifex vsock server and client, the AWS
  calls, the CLIs, and the serde forms of the library's types.

Calls into `flate2`, `ruzstd`, `uuid` and `axum::http` stand in `src/` behind small trusted
wrappers whose doc comments say what is assumed of them.
