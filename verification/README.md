# globalprotect

The verified core of a GlobalProtect VPN client, written in Verus.

- `src/` is the library. Every function in it carries a `requires`/`ensures`
  contract that Verus proves. It covers the PKCS#11 URI and tool-output
  parsing, version and install logic, the encrypted identity vault, the
  connect request, the connection manager's state, and the service's
  decisions on connecting, reconnecting, resuming and disconnecting.
- Calls into outside crates (argon2, chacha20poly1305, base64, pem, png)
  and a few std functions sit behind small trusted wrappers. Each wrapper's
  doc comment says what its contract claims.
- `tests/` runs the library on concrete values.
- `app/` is a thin command-line front end. It reads and writes the files,
  runs the system tools, uses the desktop secret store, and prints what the
  library decided.
