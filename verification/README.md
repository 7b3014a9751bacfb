# acme-azure-function

An Azure Function that watches a certificate in an Azure KeyVault and renews it through the
[ACME v2 protocol](https://tools.ietf.org/html/rfc8555) before it expires, and another one that
makes an Azure CDN endpoint use the latest certificate.

`src/` is the library, verified with [Verus](https://github.com/verus-lang/verus): what is asked of
the services, what their responses mean, and what has to be done next. It does no I/O. A flow of
requests is a machine that says what it needs, and that is handed what came of it.

- `acme`: accounts (`account`), orders (`order`) and their completion (`completion`) at an ACME
  server. `proto` is the simpler account, whose orders have a single authorization, and `progress` is
  what a person who watches it is told.
- `azure`: who the function is to Azure (`auth`), and the calls to KeyVault (`key_vault`), to the
  management API (`management`, `cdn`, `dns`) and to Log Analytics (`log_analytics`).
- `renew_cert`, `deploy_cert_to_cdn` and `update_cdn_cert`: the functions themselves.
- `function_worker` and `function_host`: the requests of the function host, and their answers.
- `http_common`, `log2`, `pem`, `time2`, `json`, `encoding`, `crypto`, `text` and `error`: what the
  others are built from.

The outside crates are called in small functions whose contracts are trusted. Each says in its doc
comment which outside function it stands for.

`app/` is the program around the library: it sends the requests, reads JSON, waits, and writes the
log. Its first argument says which function it serves: `renew-cert` (where there is no argument),
`deploy-cert-to-cdn`, `update-cdn-cert` or `acme`.

`tests/` runs the library on given values, with the outside crates linked.
