# greentic-llm

Provider-agnostic multi-LLM abstraction for the Greentic platform: send a chat
to a provider, get a response or a stream back. The logic is verified with
[Verus](https://github.com/verus-lang/verus); provider traffic goes through
[rig-core](https://crates.io/crates/rig-core) and
[rig-bedrock](https://crates.io/crates/rig-bedrock).

| Group | Providers |
|---|---|
| Major clouds | `openai`, `anthropic`, `azure`, `azure-foundry`, `bedrock`, `gemini` |
| Hosted APIs | `deepseek`, `cohere`, `groq`, `perplexity`, `xai`, `mistral`, `moonshot`, `minimax`, `zai`, `xiaomimimo` |
| Aggregators / routers | `openrouter`, `huggingface`, `together`, `hyperbolic`, `galadriel`, `mira` |
| Local daemons (keyless) | `ollama`, `llamafile` |

## Layout

- `src/` is the verified library.
  - `capabilities`: the providers, their identifiers and feature surfaces.
  - `credentials`: credentials, redaction, and the environment-backed source.
  - `provider`: requests, responses, stream events and errors.
  - `completion`: the provider-neutral completion request.
  - `request`: chat request to completion request.
  - `response`: provider reply to chat response.
  - `stream`: provider stream to stream events.
  - `rig_backend`: what a provider client is made from, the capability gate,
    and the backend itself.
  - `mock`: a scriptable test double.
  - `text`: text helpers and models.
- `app/` is the runtime around it: rig's clients, the async provider and
  credential traits, environment access, serde shapes and the command-line
  value.
- `tests/` holds the tests of the library.

Contracts are written over views of the data. Properties that span several
functions stand at the end of each module under "Laws".

## Provider notes

- **azure**: `base_url` is required (the resource endpoint,
  `https://{resource}.openai.azure.com`); the key is sent as the `api-key`
  header. Optional `api_version` overrides the default. The model name is the
  deployment id.
- **azure-foundry**: `base_url` is required and normalised to
  `{endpoint}/openai/v1`.
- **bedrock**: an optional backend, off by default because it pulls in the AWS
  SDK. Authenticates via the standard AWS
  credential chain; `api_key` is ignored and an optional `aws_profile` selects
  a named profile.
- **ollama / llamafile**: keyless; `base_url` defaults to
  `http://localhost:11434` / `http://localhost:8080`.

## License

MIT
