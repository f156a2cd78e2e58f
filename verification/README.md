# edcb_mcp

A client of EDCB's CtrlCmd protocol, written in Verus: the command line `edcb` and the
stdio MCP server `edcb-mcp` that read EDCB's services, reservations, recordings, programs,
tuners, plug-ins and notifications, and that preview, create and delete reservations.

## Layout

- `src/` is the verified library. Each public function states what it returns in its
  `ensures`, over spec functions and views of the records.
  - `wire`, `utf16`, `text`, `datetime`, `codec`, `records`, `search_key`: the wire format
    (little-endian integers, UTF-16 strings, SYSTEMTIME, size-prefixed structs and vectors)
    and every record EDCB sends or receives, with decoders proved against spec parsers and
    encoders against spec writers, and the round trip between them.
  - `client`: the request frame of each command and the decoding of its response; program
    search filtering.
  - `reservation`: building a reservation from a program and EDCB's default settings.
  - `flows`: each command of the command line and of the MCP server as a state machine that
    names the next request to send and takes the reply back.
  - `cli`, `settings`, `mcp`: reading the command line, the environment and the MCP tool
    parameters; `plain`: the line-based output.
  - `util`, `sections`: ChSet5.txt, LogoData.ini and logo directory listings, program text
    decoding, extended program text split by heading, FILETIME values.
  - `laws`: properties that span several functions (options win over the environment,
    a preview never asks EDCB to change anything, a creation sends what the preview showed,
    key texts read back, search results match the search, and more).
- `tests/` runs the library on concrete values.
- `app/` is the program around it: TCP exchanges with timeouts, the loop that drives a
  command's state machine, JSON output, and the rmcp server. A program run under a name that
  ends in `edcb-mcp` serves MCP; under any other name it is the `edcb` command line.
