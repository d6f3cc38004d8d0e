//! Fixed texts the installer writes to the host: configuration fragments
//! and shell scripts.
use vstd::prelude::*;

verus! {

/// The `FullRoot` file set fragment.
pub const FILESET_CONF: &'static str = r#"FileSet {
  Name = "FullRoot"
  Description = "Full root filesystem (exclude volatile/special paths)"
  Include {
    Options { signature = MD5; compression = LZ4; onefs = no; sparse = yes; noatime = yes; }
    File = /
  }
  Exclude {
    File = /proc
    File = /sys
    File = /dev
    File = /run
    File = /tmp
    File = /mnt
    File = /media
    File = /var/cache
    File = /var/tmp
    File = /swap.img
    File = /lost+found
    File = /var/lib/bareos/storage
    File = /var/spool/bareos
  }
}
"#;

/// The `EvalPool` pool fragment.
pub const POOL_CONF: &'static str = r#"Pool {
  Name = EvalPool
  Pool Type = Backup
  Recycle = yes
  AutoPrune = yes
  Volume Retention = 30 days
  Maximum Volume Bytes = 20G
  Maximum Volumes = 10
  Label Format = "eval-vol-"
}
"#;

/// A recipe for overriding the `File` storage address, left for the operator.
pub const STORAGE_OVERRIDE_CONF: &'static str = r#"Storage {
  Name = File
  Address = 127.0.0.1
  Password = ""   # leave blank; package-installed Storage/File.conf carries the real secret
  Device = FileStorage
  Media Type = File
  Maximum Concurrent Jobs = 10
}
"#;

/// Debconf answers for anything that might prompt during package install.
pub const DEBCONF_PRESEED: &'static str = r#"postfix postfix/main_mailer_type select No configuration
postfix postfix/mailname string nqrustbackup.local
bareos-database-common bareos-database-common/dbconfig-install boolean false
bareos-database-common bareos-database-common/install-error select abort
dbconfig-common dbconfig-common/dbconfig-install boolean false
"#;

/// Turns off `needrestart` prompts.
pub const NEEDRESTART_SCRIPT: &'static str = r#"mkdir -p /etc/needrestart/conf.d
cat > /etc/needrestart/conf.d/nqrb.conf <<'__EOF__'
$nrconf{restart} = "a";
$nrconf{kernelhints} = -1;
__EOF__
"#;

/// Asks a running director to reload its configuration.
pub const RELOAD_DIRECTOR_SCRIPT: &'static str = r#"if command -v bconsole >/dev/null 2>&1; then
    echo -e 'reload\nquit' | bconsole || true
fi"#;

/// Turns TLS off on the Director, the admin console and the WebUI's `directors.ini`, restarts the director and probes it.
pub const TLS_OFF_SCRIPT: &'static str = r#"set -eu

# 1. Director resource: TLS Enable = no, TLS Require = no
DIR_CONF=/etc/bareos/bareos-dir.d/director/bareos-dir.conf
if [ -f "$DIR_CONF" ]; then
  if grep -qE '^\s*TLS\s*Enable' "$DIR_CONF"; then
    sed -i 's/^\(\s*TLS\s*Enable\s*\)=.*/\1= no/' "$DIR_CONF"
  else
    sed -i '/^}\s*$/i \  TLS Enable = no' "$DIR_CONF"
  fi
  if grep -qE '^\s*TLS\s*Require' "$DIR_CONF"; then
    sed -i 's/^\(\s*TLS\s*Require\s*\)=.*/\1= no/' "$DIR_CONF"
  else
    sed -i '/^}\s*$/i \  TLS Require = no' "$DIR_CONF"
  fi
fi

# 2. admin Console resource: write a known-good copy with TLS off + Profile webui-admin.
mkdir -p /etc/bareos/bareos-dir.d/console
cat > /etc/bareos/bareos-dir.d/console/admin.conf <<'__EOF__'
Console {
  Name = admin
  Password = "admin"
  Profile = "webui-admin"
  TLS Enable = no
}
__EOF__
chown root:bareos /etc/bareos/bareos-dir.d/console/admin.conf 2>/dev/null || true
chmod 640 /etc/bareos/bareos-dir.d/console/admin.conf

# 3. WebUI side: directors.ini — turn off all TLS verification + PSK keys.
DI=/etc/bareos-webui/directors.ini
if [ -f "$DI" ]; then
  for KEY in tls_verify_peer enable_tls_psk tls_required tls_authenticate; do
    if grep -qE "^\s*$KEY\s*=" "$DI"; then
      sed -i "s|^\s*$KEY\s*=.*|$KEY = false|" "$DI"
    fi
  done
  # Make sure the two essential keys exist somewhere in the [localhost-dir] section.
  for KEY in tls_verify_peer enable_tls_psk; do
    grep -q "^$KEY" "$DI" || sed -i "/^\[localhost-dir\]/a $KEY = false" "$DI"
  done
fi

# 4. Restart director so the TLS settings on its listening socket are reapplied.
systemctl restart bareos-director
# 5. Probe — bconsole should connect without TLS errors.
sleep 2
echo -e 'status director\nquit' | timeout 5 bconsole >/tmp/nqrb-tls-probe.out 2>&1 || true
if grep -q '1000 OK' /tmp/nqrb-tls-probe.out; then
  echo "TLS-off applied; bconsole reaches director"
else
  echo "WARN: bconsole did not get a clean 1000 OK after TLS-off:" >&2
  head -10 /tmp/nqrb-tls-probe.out >&2 || true
fi
rm -f /tmp/nqrb-tls-probe.out
"#;

/// Enables the distribution's Apache PHP module.
pub const ENABLE_PHP_SCRIPT: &'static str = r#"set -eu
mod=$(ls /etc/apache2/mods-available/ 2>/dev/null | grep -E '^php[0-9]+(\.[0-9]+)?\.load$' | head -1 | sed 's/\.load$//')
if [ -z "$mod" ]; then
  echo "no php apache module found in /etc/apache2/mods-available/" >&2
  exit 1
fi
echo "enabling apache module: $mod"
a2enmod "$mod"
"#;

/// Enables the `bareos-webui` Apache conf, which serves the WebUI under
/// `/bareos-webui/`, and drops the stale `nqrustbackup-webui` alias.
pub const ENABLE_WEBUI_CONF_SCRIPT: &'static str = r#"set -eu
a2disconf nqrustbackup-webui 2>/dev/null || true
a2enconf bareos-webui
"#;

/// The WebUI virtual host after its port number: `/` redirects to the
/// WebUI under `/bareos-webui/`, which the `bareos-webui` conf serves.
pub const VHOST_CONF_TAIL: &'static str = r#">
  ServerName _
  DocumentRoot /var/www/html
  ErrorLog ${APACHE_LOG_DIR}/nqrustbackup-webui-error.log
  CustomLog ${APACHE_LOG_DIR}/nqrustbackup-webui-access.log combined

  RedirectMatch 302 ^/$ /bareos-webui/
</VirtualHost>
"#;

/// The brand-overlay script after the tarball URL.
pub const OVERLAY_SCRIPT_TAIL: &'static str = r#"'
DEST=/usr/share/bareos-webui
TMP=$(mktemp -d)
trap 'rm -rf "$TMP"' EXIT
if ! curl -fsSL "$URL" -o "$TMP/webui.tgz"; then
  echo "WARN: could not download $URL — leaving Bareos branding in place" >&2
  exit 0
fi
mkdir -p "$TMP/extract"
tar xzf "$TMP/webui.tgz" -C "$TMP/extract"
# Overlay (no --delete: we don't want to remove deb-managed files we don't ship).
# rsync may not be installed on minimal hosts; fall back to cp -a.
if command -v rsync >/dev/null 2>&1; then
  rsync -a "$TMP/extract/" "$DEST/"
else
  cp -a "$TMP/extract/." "$DEST/"
fi
chown -R root:root "$DEST"
find "$DEST" -type d -exec chmod 755 {} +
find "$DEST" -type f -exec chmod 644 {} +
echo "applied NQRustBackup webui overlay -> $DEST"
"#;

} // verus!
