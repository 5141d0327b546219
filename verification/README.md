# IOTA Lite RPC proofs

Light-client proofs for the IOTA ledger, built from what a node serves over gRPC
and verified locally against a committee. The library is written in Verus: but
for the calls into the IOTA SDK, every function in `src/` is proved to keep its
contract.

## What is proved

- `verify_proof(committee, proof)` accepts exactly the proofs whose checkpoint a
  quorum of the committee certified, whose committee target is the one the
  checkpoint names, and whose transaction evidence is listed in that checkpoint,
  emitted the target events and wrote the target objects. Every rejection says
  which check failed first.
- Proofs are tamper-evident. A summary that the committee did not certify is
  rejected, whatever else the proof holds; another summary that it did certify is
  another proof. Beside the same summary, a proof that held is rejected with
  contents, a transaction, effects or events that have another digest, with
  another event at the place of a target event, or with an object that has
  another reference than its target. For the effects this takes that the
  checkpoint lists no transaction twice.
- A `CommitteeWalk` reaches the committee of a later epoch from a trusted one
  only through transition checkpoints that each committee on the way certified.
- A proof built from a node's replies is about the transaction that was asked for
  and holds what was served and nothing else. An incomplete reply is refused with
  the first part that is missing, and so is a reply for another transaction. From
  the replies of an honest node a proof is built that holds, against the committee
  that the node serves and against the one that a walk reaches.

`src/laws.rs` states these across functions.

## What is trusted

`src/sdk.rs` holds every call into the IOTA SDK: decoding BCS, computing digests
and object references, and verifying the aggregated BLS signature. Each call is
named as a function of its arguments; the proofs use nothing else of it.
Collision resistance of the digests and the security of the signature scheme are
not part of the model.

## Layout

- `src/`: the verified library
- `tests/`: its tests, over checkpoints signed with real keys
- `app/`: the command line, the gRPC client and the JSON files

## Command line

Commands connect to `http://127.0.0.1:50051` unless `--grpc-url` or
`IOTA_LITE_POC_GRPC_URL` says otherwise.

```sh
iota-lite-poc create-transaction-proof --transaction-digest <digest> --output proof.json
iota-lite-poc verify-proof --proof proof.json [--committee committee.json]
iota-lite-poc fetch-committee --epoch 0 --output epoch-0.json
iota-lite-poc walk-committee --trusted-committee epoch-0.json --target-epoch 1 --output epoch-1.json
```

Without `--committee`, `verify-proof` takes the committee from the node, which is
then trusted for it. `walk-committee` trusts only its starting committee, which it
reads from a committee file; it does not read genesis blobs.
