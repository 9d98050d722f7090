# securekey

SLH-DSA (FIPS 205, SPHINCS+) key management and file signing, written in Verus.

- `src/` is the verified library: parameter-set resolution and security categories
  (`params`), key-pair generation into private/public containers (`keygen`), signing and
  verifying file contents (`signing`, `verifying`), public-key export (`export`), container
  inspection (`inspect`), key rotation (`rotate`), key-file wiping (`destroy`), and the
  properties that span these operations (`laws`). Calls into `slh-dsa`, `base64`, `hex`,
  `sha2`, `rand`, `getrandom`, `chrono` and `zeroize` sit behind small trusted wrappers
  whose contracts are documented where they are declared (`slh`, `encoding`, `digest`,
  `clock`, `containers`, `destroy`, `text`).
- `app/` is the command-line tool: argument parsing, JSON files, file system and
  coloured output around the library.
- `tests/` exercises the library on concrete inputs.
