# minion

Decision logic of a Kubernetes, CRD-based continuous-integration service,
written in Verus and proved against its contracts.

- `src/pipeline_monitor` — which resource-watcher CronJobs the pipelines ask
  for (`get_desired_resources`), which ones run (`get_current_resources`), the
  operations between the two (`get_operations`), the watcher manifests
  (`resource_watcher`), and the laws that tie them together (`laws`).
- `src/pipeline_monitor_legacy` — the first form of the monitor.
- `src/version_sidecar`, `src/resource_sidecar` — the sidecars' rules.
- `src/version_monitor`, `src/minion_controller` — the reports of resource changes.
- `src/file_inspector` — path filtering and CORS rule of the file service.
- `src/text`, `src/meta` — string helpers and the object metadata model.
- `app/` — the processes: Kubernetes, file, environment and HTTP I/O around the library.
