# coverage_http

Collects Rust code coverage from running applications, in Kubernetes too, over HTTP and without
a filesystem on the side of the application.

- `src/` is the library, verified with Verus. It decides: what a coverage server answers, what a
  client asks for, which commands are run with which arguments, where files go, and which error
  comes of which failure.
- `app/` is what does: the command line, files, processes, HTTP, LLVM's profile runtime.
- `tests/` runs the library on concrete values.

## How the two parts meet

An operation of the client, such as `CoverageClient::merge_profdata`, is a value. Its `request`
says what is to be done next, and its `resume` takes what became of that. `app/surroundings.rs`
carries the requests out until the operation is over. A reply of a kind that the request does not
call for changes nothing, so a step cannot be skipped.

The server's answers are functions of what the process tells of itself, of its profile and of the
clock.

Paths are byte strings with `/` between the names, as Unix has them.

## What is proved

Every function has a contract over a mathematical model, `..View`, of the types that it takes and
gives. What holds of whole runs is proved in functions whose names begin with `law_`, among them:

- a profile that a server sends is written by the client byte for byte, and is merged
  (`round_trip.rs`);
- the processing of a test merges first, then makes its reports in order, each from the replies
  that the part before it left over; it ends well exactly where all of them do, and else with the
  error of the first that fails (`pipeline.rs`);
- a search for an LLVM tool comes to its end, at the first place that has it (`tool_search.rs`);
- a forwarded port is released, whatever comes of the collection (`collect.rs`);
- every answer of the server says by its header fields that it is one (`server.rs`).

## What is trusted

Outside calls stand behind small functions marked `external_body`, each with a comment that says
what is believed of it: base64 encoding and decoding, the header map and header values of `http`,
the text of an HTTP status, and of std the lossy reading of UTF-8 and the lower case of a text.
