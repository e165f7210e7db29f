# rust_printer

The logic of RupmPrinter, a client for the SJTU library printing service
that receives PCL print jobs (from a socket, or from the Windows spooler)
and submits them to the service, written in Verus.

- `src/` is the verified library:
  - `parser/` reads the job header (paper size, orientation, duplex mode,
    copies, page count) out of a PCL stream, and builds a job from rendered
    pages (`ghostpcl`);
  - `job`, `spooler` hold the job record and its conversions from Windows
    device-mode codes;
  - `client/` builds what is sent to the service (attribute and
    paper-detail strings, request records, URLs);
  - `server` keeps the tail of an incoming stream to find its end marker;
  - `prog` holds the decisions of the print loop as a state machine;
  - `app`, `config`, `compress`, `text` hold the messages and run mode,
    file locations, gzip compression and string helpers.
- `app/` is the program around it: HTTP, sockets, files, the GhostPCL
  renderer, the Windows spooler and the settings window.
- `tests/` runs the library on concrete inputs.
