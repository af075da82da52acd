# globevpn

Starts a throw-away OpenVPN server on an EC2 instance in a chosen AWS region
and connects to it.

- `src/` is the verified library: the region and image tables, the choice of
  instance type, the launch plan for a command line, key and directory names,
  the command lines of `scp`, `ssh` and `openvpn`, the security group rules,
  the reading of EC2 replies, and the retry policy used while the instance
  boots.
- `app/` is the program around it: the command line (clap), the calls to AWS,
  the file system and the external processes.
- `tests/` runs the library on concrete values.
