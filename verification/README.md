# termshark

WireShark in the terminal: capture or load packets, browse them in a three-panel view
(packet list, protocol layers, hex dump) and filter them with a GitHub-like syntax
(`searchterm protocol:tcp source:192.168.1.1 length:>1000`).

The library is written in Verus: every parser, text view, filter and state transition
carries a contract that Verus proves.

## Layout

- `src/bytes.rs`, `src/text.rs`: byte and character helpers with their specifications
  (big-endian reads, trimming, splitting, number text).
- `src/ethernet/`: Ethernet, ARP, IPv4 (ICMP, IGMP, TCP with HTTP, UDP with DNS and mDNS), IPv6, Lightway and
  RARP parsing. Each `new` states exactly when it succeeds, which error it gives otherwise,
  and which bytes each field holds. `PacketDetail` gives each layer's name, summary and
  detail lines.
- `src/app/`: packet summaries (`packet_info`), the filter language (`filter`: `length:>N`
  and `length:<N` are strict bounds, ranges and exact lengths inclusive; with the laws in
  `filter_laws`: the text of a filter parsed from ASCII input, or of any filter that
  `text_describes` accepts, reads back as the same filter; and search terms combine
  with AND), the browsing state (`state`), key handling and filter-text editing through tui-input (`events`,
  `input`) and the text of each view (`ui`).
- `src/device.rs`, `src/cli.rs`: device descriptions and selection, command line model.
- `app/`: the terminal program (argh, pcap, ratatui, crossterm-keybind, tui-input).
- `tests/`: tests of the library on concrete packets, filters and key sequences.
