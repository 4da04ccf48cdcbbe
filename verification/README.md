# CLInvoice

CLInvoice manages invoices from the command line: it keeps records of locations,
organizations, employees, jobs, timesheets and expenses in a store, and exports jobs to
markdown.

## Layout

- `src/` is the library, verified with Verus. It holds the records as they are shown
  (`views`), their markdown rendering (`markdown`, `export`), amounts of money (`money`),
  points in time and their rounding (`time`), the command line's arguments and the
  configuration they are read against (`args`), and the decisions of each command
  (`create`, `retrieve`, `update`, `interactive`). `laws` holds the properties that span
  several functions, each as a proof function.
- `tests/` runs the library on concrete values.
- `app/` is the program: it parses the command line with clap, reads and edits the
  configuration file (TOML), converts the arguments into the library's types and runs the
  command against the configured store. Storage adapters are enabled by features of the
  storage crates; a build without them refuses every store.

## Usage

Run `clinvoice config` to edit the configuration file, and `clinvoice help` for the
commands.
