# ZoomOSC Lite (verified core)

An OSC remote for the Zoom desktop client on macOS. Bitfocus Companion or any
OSC controller sends addresses such as `/zoom/audio/mute`; the remote drives
the Zoom client through the macOS Accessibility interface.

The library under `src/` is verified with Verus:

- `osc` reads the address at the start of an OSC packet;
- `command` maps an address (or its ZoomOSC-style alias) to a command;
- `text` compares accessibility labels (case-insensitive alias search, exact
  titles, the share button, the lines of the tree listing);
- `labels` lists the labels of each control and the error texts;
- `keys` holds the keyboard shortcuts;
- `walk` holds the bounded depth-first walks through the accessibility tree;
- `pid` reads Zoom's process id from the output of `pgrep`;
- `workflow` is the state machine behind each command, with its laws
  (every command ends, nothing touches Zoom before the Accessibility check,
  failed steps end the command, mute and video are absolute and idempotent).

`app/` is the macOS program around it: the Accessibility and Core Graphics
calls, the UDP server, the command line and the C interface of the front end.
It performs each action that the state machine asks for and hands back the
outcome.
