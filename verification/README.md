# zumbra

The decision logic of a headless, shielded Zcash wallet for AI agents, with its contracts
proved by Verus.

The wallet lets an agent spend within an operator's spending policy: sends are proposed, judged
by the policy, reviewed and only then signed, and the seed, which lives in an encrypted vault,
is read only once the policy has passed the send. The library also holds the operator's
approval channel: approvals signed with the operator's Ed25519 key, bound to one proposal,
single-use and expiring.

## Layout

- `src/` — the verified library.
  - `approval.rs`: operator approvals (the signed message, where the files live, single use,
    expiry, the operator key); `operator.rs`: the operator's `operator init` and `approve`.
  - `send.rs`, `setup.rs`, `wallet.rs`: the command line's send paths, wallet init and
    restore, the vault seed, the spending policy's defaults and the confirm guard, as
    machines that ask for one piece of outside work at a time.
  - `mcp.rs`, `tools.rs`: the agent-facing server's error codes, its signing session and its
    send tools.
  - `config.rs`, `commands.rs`: settings, the foreground sync and the small decisions of the
    commands.
  - `text.rs`: text operations with their specifications.
  - `primitives.rs`: the calls into `ed25519-dalek`, `hex`, `rand`, `uuid` and
    `zcash_address`, with the contracts they are trusted to meet.
- `tests/` — tests of the library.
- `app/` — a small `zumbra` command line around the library: `info`, the Ironwood entry
  points, and the operator-approval files (`record`, `show`, `consume`) and address validation.
  The commands that need the wallet engine (sync, send, x402, wallet init and restore, operator
  init and approve) stand in `src/` as machines; running them needs that engine, which this
  crate does not hold.
