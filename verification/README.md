# modal

A client for a serverless function platform, split in two.

`src/` is the verified library. It holds the decisions of the client, each
with a contract that Verus proves:

- `config`: which credentials and server address the client uses, from the
  environment and the profiles of `~/.modal.toml`;
- `client`: the server address, the credential check, the metadata of each
  request (with the caller's platform and host name), and the outcome of a function lookup;
- `invocation`: the protocol of a blocking function call as a state machine
  (open the call, send the input where needed, poll for the output until
  it arrives, fetch a stored output);
- `app`, `function`: the state of apps and functions and the requests that
  deploy, look up and tag them;
- `serialization`: payload formats, their protocol numbers, and the
  outcome of encoding and decoding;
- `error`, `text`: errors and the text operations they need.

`app/` is the asynchronous client around it: it reads the environment and
the configuration file, connects, performs the remote calls through a
`ModalTransport` implementation, runs the CBOR codec on user types, and
drives the call state machine.
