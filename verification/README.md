# ecs_sd

Prometheus HTTP service discovery for AWS ECS, with an optional scrape proxy
and gossip-based leader election.

- `src/` is the verified library (Verus): label building and level filtering
  (`labels`, `target`, `level`, with the level of each label name in `tiers`), the ECS/EC2 records discovery reads (`ecs`),
  which tasks become targets (`discovery`), request filtering and cache
  freshness (`sd`), proxy routes and forwarding decisions (`route`, `proxy`),
  the cache snapshot and refresh metrics (`state`), health answers (`health`),
  leader election (`cluster`), and argument validation (`config`).
- `app/` is the server around it: command line, AWS calls, HTTP handlers,
  Prometheus metrics and gossip.
- `tests/` exercises the library.
