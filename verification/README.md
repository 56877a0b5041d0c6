# vivado-mac

Runs Xilinx Vivado on macOS inside a Docker container, with the FPGA board
reached through a Xilinx Virtual Cable (XVC) server (`openFPGALoader --xvc`)
on the host.

## Layout

- `src/` — the library, verified with Verus: the steps and decisions of
  `install`, `setup`, `start`, `vivado`, `xvc` and `uninstall` (`flows`),
  which installer files are accepted (`setup`, `util`), the containers that
  are created (`docker`), the per-layer progress bars of an image pull
  (`progress`), the setup log and the data directory (`log`, `util`), the
  extraction of the helper scripts (`assets`), the host's tools and yes/no
  answers (`deps`), the status report and `openFPGALoader` arguments
  (`services`), and the text and path helpers they rest on (`text`).
- `app/` — the program: command-line parsing, the Docker daemon, the
  terminal, files and processes. It carries out what the library decides.
- `tests/` — tests of the library.

The program embeds the helper scripts from `scripts/` (`install.sh`,
`startup.sh`, `headers.sh`, `auth_token_gen.exp` and the
`vivado_settings_*.txt` files); that directory must be present to build it.
