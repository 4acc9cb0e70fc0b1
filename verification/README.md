# grok_pager

The decision logic of the Grok terminal pager, written in Verus and proved
against its contracts:

- `timeline` — scrollback turns, the timeline rail's markers and jumps, and
  which turn the viewport is on.
- `commands`, `models`, `plan_mode`, `acp_command` — slash-command results,
  the `/model` picker (rows, effort phase, resolution of a typed model) and
  commands advertised by an ACP agent (skill metadata, argument completions).
- `settings` — the settings catalog, its registry and search, and the page
  layout (categories and sections).
- `pi_settings` — the settings panel: its row table, the search filter, the
  modes (browse, search, choosers, group sheets, text and number editors,
  reset confirmation), key, paste and mouse handling, and the click
  targets of rows, values, choices and the number editor's arrows.
  `pi_settings::laws` states the properties that hold in every state of the
  panel; `pi_settings::dispatch` proves that every catalog setting reaches
  an action when committed.
- `ui_config`, `interactions`, `model_details`, `decimal`, `text` — the
  `[ui]` configuration, interaction requests from the agent, the `/model`
  detail pane's text parts, and shared text helpers.

`app/` holds what does not belong in the verified library: conversion of
crossterm events, serde_json values and ACP command advertisements into the
library's types, the config file's serde forms, timestamps, and the parts of
the `/model` detail pane that print floating-point numbers.
