//! The template provider: the fixed or lightly parameterized text blocks
//! written into a fresh project. Each function returns exactly the text its
//! contract states; parameterized templates splice the caller's values into
//! fixed surroundings.

use vstd::prelude::*;

use crate::manifest::finalize_scan;
use crate::manifest::init_scan_state;
use crate::manifest::is_array_header;
use crate::manifest::is_scalar_header;
use crate::manifest::lemma_scalars_stable;
use crate::manifest::lemma_scan_join;
use crate::manifest::lemma_scan_lines_concat;
use crate::manifest::lemma_scan_scalar_plain;
use crate::manifest::lemma_scan_scalar_quoted;
use crate::manifest::parse_manifest;
use crate::manifest::scan_kv;
use crate::manifest::scan_line;
use crate::manifest::scan_lines;
use crate::manifest::ScanState;
use crate::text::split_on;

verus! {

/// The recovery-side installer script placed under `META-INF`.
pub fn generate_update_binary() -> (r: String)
    ensures
        r@ == "#!/sbin/sh\n##########################################################################################\n#\n# Magisk Module Template Install Script\n# by topjohnwu\n#\n##########################################################################################\n\nTMPDIR=/dev/tmp\nINSTALLER=$TMPDIR/install\n# Always mount under tmp\nMOUNTPATH=$TMPDIR/magisk_img\n\n# Default permissions\numask 022\n\n# Initial cleanup\nrm -rf $TMPDIR 2>/dev/null\nmkdir -p $INSTALLER\n\n# echo before loading util_functions\nui_print() { echo \"$1\"; }\n\nrequire_new_magisk() {\n  ui_print \"*******************************\"\n  ui_print \" Please install Magisk v17.0+! \"\n  ui_print \"*******************************\"\n  exit 1\n}\n\n##########################################################################################\n# Environment\n\nabort() { ui_print \" \"; ui_print \"$*\"; exit 1; }\n\nbaksmali() {\n  ANDROID_DATA=$ap ANDROID_ROOT=/system LD_LIBRARY_PATH=/system/lib dalvikvm -Xbootclasspath:/system/framework/core.jar:/system/framework/conscrypt.jar:/system/framework/apache-xml.jar -classpath $baksmali org.jf.baksmali.main -o classout $1;\n  test $? != 0 && abort \"Decompiling APK classes failed. Aborting...\";\n}\nsmali() {\n  ANDROID_DATA=$ap ANDROID_ROOT=/system LD_LIBRARY_PATH=/system/lib dalvikvm -Xbootclasspath:/system/framework/core.jar:/system/framework/conscrypt.jar:/system/framework/apache-xml.jar -classpath $smali org.jf.smali.main -o classes.dex classout;\n  test $? != 0 && abort \"Rebuilding APK classes failed. Aborting...\";\n}\napktool_d() {\n  ANDROID_DATA=$ap ANDROID_ROOT=/system LD_LIBRARY_PATH=/system/lib dalvikvm -Xbootclasspath:/system/framework/core.jar:/system/framework/conscrypt.jar:/system/framework/apache-xml.jar -classpath $apktool brut.apktool.Main d --frame-path $ap/framework --no-src -o resout $1;\n  test $? != 0 && abort \"Decoding APK resources failed. Aborting...\";\n}\napktool_b() {\n  ANDROID_DATA=$ap ANDROID_ROOT=/system LD_LIBRARY_PATH=/system/lib dalvikvm -Xbootclasspath:/system/framework/core.jar:/system/framework/conscrypt.jar:/system/framework/apache-xml.jar -classpath $apktool brut.apktool.Main b --frame-path $ap/framework --aapt $bin/aapt --copy-original -o $1 resout;\n  test $? != 0 && abort \"Rebuilding APK resources failed. Aborting...\";\n}\n\n##########################################################################################\n\nOUTFD=$2\nZIP=$3\n\nmount /data 2>/dev/null\n\n# Load utility functions\nif [ -f /data/adb/magisk/util_functions.sh ]; then\n  . /data/adb/magisk/util_functions.sh\nelif [ -f /data/magisk/util_functions.sh ]; then\n  NVBASE=/data\n  . /data/magisk/util_functions.sh\nelse\n  require_new_magisk\nfi\n\n# Use alternative image if in BOOTMODE\n$BOOTMODE && IMG=$NVBASE/magisk_merge.img\n\n# Preperation for flashable zips\nsetup_flashable\n\n# Mount partitions\nmount_partitions\n\n# Detect version and architecture\napi_level_arch_detect\n\n# You can get the Android API version from $API, the CPU architecture from $ARCH\n# Useful if you are creating Android version / platform dependent mods\n\n# Setup busybox and binaries\n$BOOTMODE && boot_actions || recovery_actions\n\n##########################################################################################\n# Preparation\n##########################################################################################\n\n# Extract common files\nunzip -o \"$ZIP\" module.prop config.sh 'common/*' -d $INSTALLER >&2\n\n[ ! -f $INSTALLER/config.sh ] && abort \"! Unable to extract zip file!\"\n# Load configurations\n. $INSTALLER/config.sh\n\n# Check the installed magisk version\nMIN_VER=`grep_prop minMagisk $INSTALLER/module.prop`\n[ ! -z $MAGISK_VER_CODE -a $MAGISK_VER_CODE -ge $MIN_VER ] || require_new_magisk\nMODID=`grep_prop id $INSTALLER/module.prop`\nMODPATH=$MOUNTPATH/$MODID\n\n# Print mod name\nprint_modname\n\n# Please leave this message in your flashable zip for credits :)\nui_print \"******************************\"\nui_print \"Powered by Magisk (@topjohnwu)\"\nui_print \"******************************\"\n\n##########################################################################################\n# Install\n##########################################################################################\n\n# Get the variable reqSizeM. Use your own method to determine reqSizeM if needed\nrequest_zip_size_check \"$ZIP\"\n\n# This function will mount $IMG to $MOUNTPATH, and resize the image based on $reqSizeM\nmount_magisk_img\n\n# Create mod paths\nrm -rf $MODPATH 2>/dev/null\nmkdir -p $MODPATH\n\n# Extract files to system. Use your own method if needed\nui_print \"- Extracting module files\"\nunzip -o \"$ZIP\" 'system/*' -d $MODPATH >&2\n\n# Remove placeholder\nrm -f $MODPATH/system/placeholder 2>/dev/null\n\n##########################################################################################\n# APK-Patcher Main\n##########################################################################################\n\n# working directory variables\nap=/tmp/apkpatcher;\nbin=$ap/tools;\npatch=$ap/patch;\nscript=$ap/script;\n\nmkdir -p $ap;\nunzip -o \"$ZIP\" -d $ap;\nif [ $? != 0 -o -z \"$(ls $ap)\" ]; then\n  abort \"Unzip failed. Aborting...\";\nfi;\n\n# set up extracted files and directories\nchmod -R 755 $bin $script $ap/*.sh;\n\n# dexed bak/smali and apktool jars (via: dx --dex  --min-sdk-version=26 --output=classes.dex <file>.jar)\nbaksmali=$bin/baksmali-*-dexed.jar;\nsmali=$bin/smali-*-dexed.jar;\napktool=$bin/apktool_*-dexed.jar;\n\n# import variables\n. $ap/envvar.sh;\n\nui_print \"Patching...\";\ncd $ap;\namount=$((100 / `echo $apklist | wc -w`));\nsubamt=$(awk -v num=$amount 'BEGIN { print num / 10}');\nfor apkp_target in $apklist; do\n  apkname=$(basename $apkp_target .apk);\n  ui_print \"- Patching $apkname\";\n\n  # copy in apkp_target system file to patch\n  sysfile=`find /system -mindepth 2 -name $apkp_target`;\n  cp -fp $sysfile $ap;\n\n  # make a backup if set\n  if [ \"$backup\" == 1 ]; then\n    mkdir -p $apkbak;\n    cp -fp $sysfile $apkbak;\n  fi;\n\n  # smali file patches\n  if [ -f $script/$apkname-smali.sh -o -d $patch/$apkname-smali ]; then\n    baksmali $apkp_target;\n    if [ -f $script/$apkname-smali.sh ]; then\n      . $script/$apkname-smali.sh;\n    fi;\n    if [ -d $patch/$apkname-smali ]; then\n      cp -rf $patch/$apkname-smali/* classout/;\n    fi;\n    smali;\n  fi;\n  # don't directly add to zip if there are apktool resource patches to perform\n  if [ ! -f $script/$apkname-res.sh -o ! -d $patch/$apkname-res ]; then\n    $bin/zip -v $apkp_target classes.dex;\n    test $? != 0 && abort \"Updating APK classes failed. Aborting...\";\n  fi;\n\n  # resource file patches\n  if [ -f $script/$apkname-res.sh -o -d $patch/$apkname-res ]; then\n    apktool_d $apkp_target;\n    if [ -f $script/$apkname-res.sh ]; then\n      . $script/$apkname-res.sh;\n    fi;\n    if [ -d $patch/$apkname-res ]; then\n      cp -rf $patch/$apkname-res/* resout/;\n    fi;\n    # add the new classes.dex from smali if it exists\n    if [ -f $ap/classes.dex ]; then\n      cp -f classes.dex resout/classes.dex;\n    fi;\n    apktool_b $apkp_target;\n  fi;\n\n  # zipalign updated file\n  cp -f $apkp_target $apkname-preopt.apk;\n  $bin/zipalign -p 4 $apkname-preopt.apk $apkp_target;\n\n  # copy patched file back to system\n  cp -fp $ap/$apkp_target $MODPATH$sysfile;\n\n  # remove temp files if cleanup is set\n  if [ \"$cleanup\" == 1 ]; then\n    rm -rf classout classes.dex resout $apkp_target $apkname-preopt.apk;\n  fi;\ndone;\n\n# extra required non-patch changes\n. $ap/extracmd.sh;\n\n# cleanup as necessary\nif [ \"$cleanup\" == 1 ]; then\n  cd /tmp;\n  rm -rf $ap;\nfi;\n\n##########################################################################################\n# Back to Magisk\n##########################################################################################\n\n# Handle replace folders\nfor TARGET in $REPLACE; do\n  mktouch $MODPATH$TARGET/.replace\ndone\n\n# Auto Mount\n$AUTOMOUNT && touch $MODPATH/auto_mount\n\n# prop files\n$PROPFILE && cp -af $INSTALLER/common/system.prop $MODPATH/system.prop\n\n# Module info\ncp -af $INSTALLER/module.prop $MODPATH/module.prop\nif $BOOTMODE; then\n  # Update info for Magisk Manager\n  mktouch /sbin/.core/img/$MODID/update\n  cp -af $INSTALLER/module.prop /sbin/.core/img/$MODID/module.prop\nfi\n\n# post-fs-data mode scripts\n$POSTFSDATA && cp -af $INSTALLER/common/post-fs-data.sh $MODPATH/post-fs-data.sh\n\n# service mode scripts\n$LATESTARTSERVICE && cp -af $INSTALLER/common/service.sh $MODPATH/service.sh\n\nui_print \"- Setting permissions\"\nset_permissions\n\n##########################################################################################\n# Finalizing\n##########################################################################################\n\n# Unmount magisk image and shrink if possible\nunmount_magisk_img\n\n$BOOTMODE || recovery_cleanup\nrm -rf $TMPDIR\n\nui_print \"- Done\"\nexit 0\n"@,
{
    "#!/sbin/sh\n##########################################################################################\n#\n# Magisk Module Template Install Script\n# by topjohnwu\n#\n##########################################################################################\n\nTMPDIR=/dev/tmp\nINSTALLER=$TMPDIR/install\n# Always mount under tmp\nMOUNTPATH=$TMPDIR/magisk_img\n\n# Default permissions\numask 022\n\n# Initial cleanup\nrm -rf $TMPDIR 2>/dev/null\nmkdir -p $INSTALLER\n\n# echo before loading util_functions\nui_print() { echo \"$1\"; }\n\nrequire_new_magisk() {\n  ui_print \"*******************************\"\n  ui_print \" Please install Magisk v17.0+! \"\n  ui_print \"*******************************\"\n  exit 1\n}\n\n##########################################################################################\n# Environment\n\nabort() { ui_print \" \"; ui_print \"$*\"; exit 1; }\n\nbaksmali() {\n  ANDROID_DATA=$ap ANDROID_ROOT=/system LD_LIBRARY_PATH=/system/lib dalvikvm -Xbootclasspath:/system/framework/core.jar:/system/framework/conscrypt.jar:/system/framework/apache-xml.jar -classpath $baksmali org.jf.baksmali.main -o classout $1;\n  test $? != 0 && abort \"Decompiling APK classes failed. Aborting...\";\n}\nsmali() {\n  ANDROID_DATA=$ap ANDROID_ROOT=/system LD_LIBRARY_PATH=/system/lib dalvikvm -Xbootclasspath:/system/framework/core.jar:/system/framework/conscrypt.jar:/system/framework/apache-xml.jar -classpath $smali org.jf.smali.main -o classes.dex classout;\n  test $? != 0 && abort \"Rebuilding APK classes failed. Aborting...\";\n}\napktool_d() {\n  ANDROID_DATA=$ap ANDROID_ROOT=/system LD_LIBRARY_PATH=/system/lib dalvikvm -Xbootclasspath:/system/framework/core.jar:/system/framework/conscrypt.jar:/system/framework/apache-xml.jar -classpath $apktool brut.apktool.Main d --frame-path $ap/framework --no-src -o resout $1;\n  test $? != 0 && abort \"Decoding APK resources failed. Aborting...\";\n}\napktool_b() {\n  ANDROID_DATA=$ap ANDROID_ROOT=/system LD_LIBRARY_PATH=/system/lib dalvikvm -Xbootclasspath:/system/framework/core.jar:/system/framework/conscrypt.jar:/system/framework/apache-xml.jar -classpath $apktool brut.apktool.Main b --frame-path $ap/framework --aapt $bin/aapt --copy-original -o $1 resout;\n  test $? != 0 && abort \"Rebuilding APK resources failed. Aborting...\";\n}\n\n##########################################################################################\n\nOUTFD=$2\nZIP=$3\n\nmount /data 2>/dev/null\n\n# Load utility functions\nif [ -f /data/adb/magisk/util_functions.sh ]; then\n  . /data/adb/magisk/util_functions.sh\nelif [ -f /data/magisk/util_functions.sh ]; then\n  NVBASE=/data\n  . /data/magisk/util_functions.sh\nelse\n  require_new_magisk\nfi\n\n# Use alternative image if in BOOTMODE\n$BOOTMODE && IMG=$NVBASE/magisk_merge.img\n\n# Preperation for flashable zips\nsetup_flashable\n\n# Mount partitions\nmount_partitions\n\n# Detect version and architecture\napi_level_arch_detect\n\n# You can get the Android API version from $API, the CPU architecture from $ARCH\n# Useful if you are creating Android version / platform dependent mods\n\n# Setup busybox and binaries\n$BOOTMODE && boot_actions || recovery_actions\n\n##########################################################################################\n# Preparation\n##########################################################################################\n\n# Extract common files\nunzip -o \"$ZIP\" module.prop config.sh 'common/*' -d $INSTALLER >&2\n\n[ ! -f $INSTALLER/config.sh ] && abort \"! Unable to extract zip file!\"\n# Load configurations\n. $INSTALLER/config.sh\n\n# Check the installed magisk version\nMIN_VER=`grep_prop minMagisk $INSTALLER/module.prop`\n[ ! -z $MAGISK_VER_CODE -a $MAGISK_VER_CODE -ge $MIN_VER ] || require_new_magisk\nMODID=`grep_prop id $INSTALLER/module.prop`\nMODPATH=$MOUNTPATH/$MODID\n\n# Print mod name\nprint_modname\n\n# Please leave this message in your flashable zip for credits :)\nui_print \"******************************\"\nui_print \"Powered by Magisk (@topjohnwu)\"\nui_print \"******************************\"\n\n##########################################################################################\n# Install\n##########################################################################################\n\n# Get the variable reqSizeM. Use your own method to determine reqSizeM if needed\nrequest_zip_size_check \"$ZIP\"\n\n# This function will mount $IMG to $MOUNTPATH, and resize the image based on $reqSizeM\nmount_magisk_img\n\n# Create mod paths\nrm -rf $MODPATH 2>/dev/null\nmkdir -p $MODPATH\n\n# Extract files to system. Use your own method if needed\nui_print \"- Extracting module files\"\nunzip -o \"$ZIP\" 'system/*' -d $MODPATH >&2\n\n# Remove placeholder\nrm -f $MODPATH/system/placeholder 2>/dev/null\n\n##########################################################################################\n# APK-Patcher Main\n##########################################################################################\n\n# working directory variables\nap=/tmp/apkpatcher;\nbin=$ap/tools;\npatch=$ap/patch;\nscript=$ap/script;\n\nmkdir -p $ap;\nunzip -o \"$ZIP\" -d $ap;\nif [ $? != 0 -o -z \"$(ls $ap)\" ]; then\n  abort \"Unzip failed. Aborting...\";\nfi;\n\n# set up extracted files and directories\nchmod -R 755 $bin $script $ap/*.sh;\n\n# dexed bak/smali and apktool jars (via: dx --dex  --min-sdk-version=26 --output=classes.dex <file>.jar)\nbaksmali=$bin/baksmali-*-dexed.jar;\nsmali=$bin/smali-*-dexed.jar;\napktool=$bin/apktool_*-dexed.jar;\n\n# import variables\n. $ap/envvar.sh;\n\nui_print \"Patching...\";\ncd $ap;\namount=$((100 / `echo $apklist | wc -w`));\nsubamt=$(awk -v num=$amount 'BEGIN { print num / 10}');\nfor apkp_target in $apklist; do\n  apkname=$(basename $apkp_target .apk);\n  ui_print \"- Patching $apkname\";\n\n  # copy in apkp_target system file to patch\n  sysfile=`find /system -mindepth 2 -name $apkp_target`;\n  cp -fp $sysfile $ap;\n\n  # make a backup if set\n  if [ \"$backup\" == 1 ]; then\n    mkdir -p $apkbak;\n    cp -fp $sysfile $apkbak;\n  fi;\n\n  # smali file patches\n  if [ -f $script/$apkname-smali.sh -o -d $patch/$apkname-smali ]; then\n    baksmali $apkp_target;\n    if [ -f $script/$apkname-smali.sh ]; then\n      . $script/$apkname-smali.sh;\n    fi;\n    if [ -d $patch/$apkname-smali ]; then\n      cp -rf $patch/$apkname-smali/* classout/;\n    fi;\n    smali;\n  fi;\n  # don't directly add to zip if there are apktool resource patches to perform\n  if [ ! -f $script/$apkname-res.sh -o ! -d $patch/$apkname-res ]; then\n    $bin/zip -v $apkp_target classes.dex;\n    test $? != 0 && abort \"Updating APK classes failed. Aborting...\";\n  fi;\n\n  # resource file patches\n  if [ -f $script/$apkname-res.sh -o -d $patch/$apkname-res ]; then\n    apktool_d $apkp_target;\n    if [ -f $script/$apkname-res.sh ]; then\n      . $script/$apkname-res.sh;\n    fi;\n    if [ -d $patch/$apkname-res ]; then\n      cp -rf $patch/$apkname-res/* resout/;\n    fi;\n    # add the new classes.dex from smali if it exists\n    if [ -f $ap/classes.dex ]; then\n      cp -f classes.dex resout/classes.dex;\n    fi;\n    apktool_b $apkp_target;\n  fi;\n\n  # zipalign updated file\n  cp -f $apkp_target $apkname-preopt.apk;\n  $bin/zipalign -p 4 $apkname-preopt.apk $apkp_target;\n\n  # copy patched file back to system\n  cp -fp $ap/$apkp_target $MODPATH$sysfile;\n\n  # remove temp files if cleanup is set\n  if [ \"$cleanup\" == 1 ]; then\n    rm -rf classout classes.dex resout $apkp_target $apkname-preopt.apk;\n  fi;\ndone;\n\n# extra required non-patch changes\n. $ap/extracmd.sh;\n\n# cleanup as necessary\nif [ \"$cleanup\" == 1 ]; then\n  cd /tmp;\n  rm -rf $ap;\nfi;\n\n##########################################################################################\n# Back to Magisk\n##########################################################################################\n\n# Handle replace folders\nfor TARGET in $REPLACE; do\n  mktouch $MODPATH$TARGET/.replace\ndone\n\n# Auto Mount\n$AUTOMOUNT && touch $MODPATH/auto_mount\n\n# prop files\n$PROPFILE && cp -af $INSTALLER/common/system.prop $MODPATH/system.prop\n\n# Module info\ncp -af $INSTALLER/module.prop $MODPATH/module.prop\nif $BOOTMODE; then\n  # Update info for Magisk Manager\n  mktouch /sbin/.core/img/$MODID/update\n  cp -af $INSTALLER/module.prop /sbin/.core/img/$MODID/module.prop\nfi\n\n# post-fs-data mode scripts\n$POSTFSDATA && cp -af $INSTALLER/common/post-fs-data.sh $MODPATH/post-fs-data.sh\n\n# service mode scripts\n$LATESTARTSERVICE && cp -af $INSTALLER/common/service.sh $MODPATH/service.sh\n\nui_print \"- Setting permissions\"\nset_permissions\n\n##########################################################################################\n# Finalizing\n##########################################################################################\n\n# Unmount magisk image and shrink if possible\nunmount_magisk_img\n\n$BOOTMODE || recovery_cleanup\nrm -rf $TMPDIR\n\nui_print \"- Done\"\nexit 0\n".to_owned()
}

/// The script run once the system has finished booting.
pub fn generate_boot_completed_sh() -> (r: String)
    ensures
        r@ == "#!/system/bin/sh\n# 在 Android 系统启动完毕后以服务模式运行。\n"@,
{
    "#!/system/bin/sh\n# 在 Android 系统启动完毕后以服务模式运行。\n".to_owned()
}

/// The installation script, greeting with the module identifier and
/// checking platform and architecture.
pub fn generate_customize_sh(module_id: &str) -> (r: String)
    ensures
        r@ == "#!/system/bin/sh\n\nui_print \"━━━━━━━━━━━━━━━━━━━━━━━━━━━━━━━━━━━━━━━━━━━━━━━━━━━━━━\"\nui_print \"   Module: "@
            + module_id@
            + "\"\nui_print \"   Author: APMM Team\"\nui_print \"━━━━━━━━━━━━━━━━━━━━━━━━━━━━━━━━━━━━━━━━━━━━━━━━━━━━━━\"\n\n# 验证安卓版本\nif [ \"$API\" -lt 21 ]; then\n    ui_print \"! Unsupported Android version: $API\"\n    ui_print \"! Minimum supported version: Android 5.0 (API 21)\"\n    abort \"! Installation aborted\"\nfi\n\n# 检查架构\ncase \"$ARCH\" in\n    arm)\n        ui_print \"- Device architecture: $ARCH\"\n        ;;\n    arm64)\n        ui_print \"- Device architecture: $ARCH\"\n        ;;\n    x86)\n        ui_print \"- Device architecture: $ARCH\"\n        ;;\n    x64)\n        ui_print \"- Device architecture: $ARCH\"\n        ;;\n    *)\n        ui_print \"! Unsupported architecture: $ARCH\"\n        abort \"! Installation aborted\"\n        ;;\nesac\n\n# 安装逻辑\nui_print \"- Installing module files...\"\n\n# 设置权限\nui_print \"- Setting permissions...\"\nset_perm_recursive $MODPATH 0 0 0755 0644\n\n# 安装完成\nui_print \"- Installation completed!\"\nui_print \"- Module will be activated after reboot\"\nui_print \"\"\n"@,
{
    let mut s = "#!/system/bin/sh\n\nui_print \"━━━━━━━━━━━━━━━━━━━━━━━━━━━━━━━━━━━━━━━━━━━━━━━━━━━━━━\"\nui_print \"   Module: ".to_owned();
    s.append(module_id);
    s.append("\"\nui_print \"   Author: APMM Team\"\nui_print \"━━━━━━━━━━━━━━━━━━━━━━━━━━━━━━━━━━━━━━━━━━━━━━━━━━━━━━\"\n\n# 验证安卓版本\nif [ \"$API\" -lt 21 ]; then\n    ui_print \"! Unsupported Android version: $API\"\n    ui_print \"! Minimum supported version: Android 5.0 (API 21)\"\n    abort \"! Installation aborted\"\nfi\n\n# 检查架构\ncase \"$ARCH\" in\n    arm)\n        ui_print \"- Device architecture: $ARCH\"\n        ;;\n    arm64)\n        ui_print \"- Device architecture: $ARCH\"\n        ;;\n    x86)\n        ui_print \"- Device architecture: $ARCH\"\n        ;;\n    x64)\n        ui_print \"- Device architecture: $ARCH\"\n        ;;\n    *)\n        ui_print \"! Unsupported architecture: $ARCH\"\n        abort \"! Installation aborted\"\n        ;;\nesac\n\n# 安装逻辑\nui_print \"- Installing module files...\"\n\n# 设置权限\nui_print \"- Setting permissions...\"\nset_perm_recursive $MODPATH 0 0 0755 0644\n\n# 安装完成\nui_print \"- Installation completed!\"\nui_print \"- Module will be activated after reboot\"\nui_print \"\"\n");
    proof {
        assert(s@ =~= "#!/system/bin/sh\n\nui_print \"━━━━━━━━━━━━━━━━━━━━━━━━━━━━━━━━━━━━━━━━━━━━━━━━━━━━━━\"\nui_print \"   Module: "@
            + module_id@
            + "\"\nui_print \"   Author: APMM Team\"\nui_print \"━━━━━━━━━━━━━━━━━━━━━━━━━━━━━━━━━━━━━━━━━━━━━━━━━━━━━━\"\n\n# 验证安卓版本\nif [ \"$API\" -lt 21 ]; then\n    ui_print \"! Unsupported Android version: $API\"\n    ui_print \"! Minimum supported version: Android 5.0 (API 21)\"\n    abort \"! Installation aborted\"\nfi\n\n# 检查架构\ncase \"$ARCH\" in\n    arm)\n        ui_print \"- Device architecture: $ARCH\"\n        ;;\n    arm64)\n        ui_print \"- Device architecture: $ARCH\"\n        ;;\n    x86)\n        ui_print \"- Device architecture: $ARCH\"\n        ;;\n    x64)\n        ui_print \"- Device architecture: $ARCH\"\n        ;;\n    *)\n        ui_print \"! Unsupported architecture: $ARCH\"\n        abort \"! Installation aborted\"\n        ;;\nesac\n\n# 安装逻辑\nui_print \"- Installing module files...\"\n\n# 设置权限\nui_print \"- Setting permissions...\"\nset_perm_recursive $MODPATH 0 0 0755 0644\n\n# 安装完成\nui_print \"- Installation completed!\"\nui_print \"- Module will be activated after reboot\"\nui_print \"\"\n"@);
    }
    s
}

/// The same manifest, line by line: what the scanner sees.
pub open spec fn module_prop_lines(id: Seq<char>, author: Seq<char>, code: int) -> Seq<
    Seq<char>,
> {
    seq![
        "id"@ + seq![' ', '=', ' ', '"'] + id + seq!['"'],
        "name"@ + seq![' ', '=', ' ', '"'] + id + seq!['"'],
        "description"@ + seq![' ', '=', ' ', '"'] + "APMM (Android Patch Module Manager)"@ + seq!['"'],
        "version"@ + seq![' ', '=', ' ', '"'] + "v0.1.0"@ + seq!['"'],
        "versionCode"@ + seq![' ', '=', ' '] + crate::num::dec_i64(code),
        "author"@ + seq![' ', '=', ' ', '"'] + author + seq!['"'],
        "license"@ + seq![' ', '=', ' ', '"'] + "MIT"@ + seq!['"'],
        "# updateJson = \"\""@,
        Seq::<char>::empty(),
        "[script]"@,
        "# hello = \"echo 'world'\""@,
        Seq::<char>::empty(),
        "[build]"@,
        "# 全局build配置"@,
        "[build.module]"@,
        "# extra = [\"Path/to/extra/file1\", \"Path/to/extra/file2\"]"@,
        "exclude = [\"src\", \"rust\", \".*\", \"uv.lock\", \"dist\", \"build\"]"@,
        Seq::<char>::empty(),
        "[build.src]"@,
        "# extra = [\"src/extra1\", \"src/extra2\"]"@,
        "exclude = [\"src\", \"rust\", \".*\", \"uv.lock\", \"dist\", \"build\"]"@,
        Seq::<char>::empty(),
        "[[build.prebuild]]"@,
        "step1 = \"echo 'Prebuild step 1: Initializing APMM'\""@,
        "[[build.prebuild]]"@,
        "step2 = \"echo 'Prebuild step 2: Checking dependencies'\""@,
        Seq::<char>::empty(),
        "[[build.build]]"@,
        "# 留空以使用apmm默认打包 如果允许完全自定义"@,
        Seq::<char>::empty(),
        "[[build.postbuild]]"@,
        "step1 = \"echo 'Postbuild step 1: cleaning up APMM build'\""@,
        "[[build.postbuild]]"@,
        "step2 = \"echo 'Postbuild step 2: Finalizing APMM build'\""@,
        Seq::<char>::empty(),
        "[build.system]"@,
        "requires = [\"apmm>=0.3.0\"]"@,
        "build-backend = \"apmm\""@,
        Seq::<char>::empty(),
        "[github]"@,
        "# repo = \"\""@,
        "# path = \".\" # 这个很重要，表示模块是在仓库根目录下"@,
        "# branch = \"main\""@,
        "# proxy-provider = \"https://api.akams.cn/github\""@,
    ]
}

/// The whole manifest text the template provider emits for a fresh
/// project: its lines joined with newlines.
pub open spec fn module_prop_text(id: Seq<char>, author: Seq<char>, code: int) -> Seq<char> {
    crate::text::join_nl(module_prop_lines(id, author, code))
}

#[verifier::rlimit(100)]
fn push_module_prop_head(s: &mut String, module_id: &str, author: &str, version_code: i64)
    ensures
        final(s)@ == old(s)@ + crate::text::join_nl(
            module_prop_lines(module_id@, author@, version_code as int).subrange(0int, 10int),
        ),
{
    let ghost seg = module_prop_lines(module_id@, author@, version_code as int).subrange(
        0int,
        10int,
    );
    let ghost ls = module_prop_lines(module_id@, author@, version_code as int);
    let ghost base = s@;
    proof {
        reveal_strlit(" = \"");
        reveal_strlit("\"");
        reveal_strlit("\n");
        reveal_strlit(" = ");
        assert(seg.take(0) =~= Seq::<Seq<char>>::empty());
        assert(crate::text::join_nl(seg.take(0)) == Seq::<char>::empty());
        assert(s@ =~= base + crate::text::join_nl(seg.take(0)));
    }
    s.append("id");
    s.append(" = \"");
    s.append(module_id);
    s.append("\"");
    s.append("\n");
    proof {
        assert(seg.take(0).push(seg[0]) =~= seg.take(1));
        crate::text::lemma_join_nl_snoc(seg.take(0), seg[0]);
        assert(seg[0] == ls[0]);
        assert(ls[0] == "id"@ + seq![' ', '=', ' ', '"'] + module_id@ + seq!['"']);
        assert(s@ =~= base + crate::text::join_nl(seg.take(0)) + seg[0] + seq!['\n']);
        assert(s@ =~= base + crate::text::join_nl(seg.take(1)));
    }
    s.append("name");
    s.append(" = \"");
    s.append(module_id);
    s.append("\"");
    s.append("\n");
    proof {
        assert(seg.take(1).push(seg[1]) =~= seg.take(2));
        crate::text::lemma_join_nl_snoc(seg.take(1), seg[1]);
        assert(seg[1] == ls[1]);
        assert(ls[1] == "name"@ + seq![' ', '=', ' ', '"'] + module_id@ + seq!['"']);
        assert(s@ =~= base + crate::text::join_nl(seg.take(1)) + seg[1] + seq!['\n']);
        assert(s@ =~= base + crate::text::join_nl(seg.take(2)));
    }
    s.append("description");
    s.append(" = \"");
    s.append("APMM (Android Patch Module Manager)");
    s.append("\"");
    s.append("\n");
    proof {
        assert(seg.take(2).push(seg[2]) =~= seg.take(3));
        crate::text::lemma_join_nl_snoc(seg.take(2), seg[2]);
        assert(seg[2] == ls[2]);
        assert(ls[2] == "description"@ + seq![' ', '=', ' ', '"'] + "APMM (Android Patch Module Manager)"@ + seq!['"']);
        assert(s@ =~= base + crate::text::join_nl(seg.take(2)) + seg[2] + seq!['\n']);
        assert(s@ =~= base + crate::text::join_nl(seg.take(3)));
    }
    s.append("version");
    s.append(" = \"");
    s.append("v0.1.0");
    s.append("\"");
    s.append("\n");
    proof {
        assert(seg.take(3).push(seg[3]) =~= seg.take(4));
        crate::text::lemma_join_nl_snoc(seg.take(3), seg[3]);
        assert(seg[3] == ls[3]);
        assert(ls[3] == "version"@ + seq![' ', '=', ' ', '"'] + "v0.1.0"@ + seq!['"']);
        assert(s@ =~= base + crate::text::join_nl(seg.take(3)) + seg[3] + seq!['\n']);
        assert(s@ =~= base + crate::text::join_nl(seg.take(4)));
    }
    s.append("versionCode");
    s.append(" = ");
    crate::num::push_dec_i64(s, version_code);
    s.append("\n");
    proof {
        assert(seg.take(4).push(seg[4]) =~= seg.take(5));
        crate::text::lemma_join_nl_snoc(seg.take(4), seg[4]);
        assert(seg[4] == ls[4]);
        assert(ls[4] == "versionCode"@ + seq![' ', '=', ' '] + crate::num::dec_i64(version_code as int));
        assert(s@ =~= base + crate::text::join_nl(seg.take(4)) + seg[4] + seq!['\n']);
        assert(s@ =~= base + crate::text::join_nl(seg.take(5)));
    }
    s.append("author");
    s.append(" = \"");
    s.append(author);
    s.append("\"");
    s.append("\n");
    proof {
        assert(seg.take(5).push(seg[5]) =~= seg.take(6));
        crate::text::lemma_join_nl_snoc(seg.take(5), seg[5]);
        assert(seg[5] == ls[5]);
        assert(ls[5] == "author"@ + seq![' ', '=', ' ', '"'] + author@ + seq!['"']);
        assert(s@ =~= base + crate::text::join_nl(seg.take(5)) + seg[5] + seq!['\n']);
        assert(s@ =~= base + crate::text::join_nl(seg.take(6)));
    }
    s.append("license");
    s.append(" = \"");
    s.append("MIT");
    s.append("\"");
    s.append("\n");
    proof {
        assert(seg.take(6).push(seg[6]) =~= seg.take(7));
        crate::text::lemma_join_nl_snoc(seg.take(6), seg[6]);
        assert(seg[6] == ls[6]);
        assert(ls[6] == "license"@ + seq![' ', '=', ' ', '"'] + "MIT"@ + seq!['"']);
        assert(s@ =~= base + crate::text::join_nl(seg.take(6)) + seg[6] + seq!['\n']);
        assert(s@ =~= base + crate::text::join_nl(seg.take(7)));
    }
    s.append("# updateJson = \"\"");
    s.append("\n");
    proof {
        assert(seg.take(7).push(seg[7]) =~= seg.take(8));
        crate::text::lemma_join_nl_snoc(seg.take(7), seg[7]);
        assert(seg[7] == ls[7]);
        assert(ls[7] == "# updateJson = \"\""@);
        assert(s@ =~= base + crate::text::join_nl(seg.take(7)) + seg[7] + seq!['\n']);
        assert(s@ =~= base + crate::text::join_nl(seg.take(8)));
    }
    s.append("\n");
    proof {
        assert(seg.take(8).push(seg[8]) =~= seg.take(9));
        crate::text::lemma_join_nl_snoc(seg.take(8), seg[8]);
        assert(seg[8] == ls[8]);
        assert(ls[8] == Seq::<char>::empty());
        assert(s@ =~= base + crate::text::join_nl(seg.take(8)) + seg[8] + seq!['\n']);
        assert(s@ =~= base + crate::text::join_nl(seg.take(9)));
    }
    s.append("[script]");
    s.append("\n");
    proof {
        assert(seg.take(9).push(seg[9]) =~= seg.take(10));
        crate::text::lemma_join_nl_snoc(seg.take(9), seg[9]);
        assert(seg[9] == ls[9]);
        assert(ls[9] == "[script]"@);
        assert(s@ =~= base + crate::text::join_nl(seg.take(9)) + seg[9] + seq!['\n']);
        assert(s@ =~= base + crate::text::join_nl(seg.take(10)));
    }
    proof {
        assert(seg.take(10) =~= seg);
    }
}

#[verifier::rlimit(100)]
fn push_module_prop_mid(s: &mut String, module_id: &str, author: &str, version_code: i64)
    ensures
        final(s)@ == old(s)@ + crate::text::join_nl(
            module_prop_lines(module_id@, author@, version_code as int).subrange(10int, 27int),
        ),
{
    let ghost seg = module_prop_lines(module_id@, author@, version_code as int).subrange(
        10int,
        27int,
    );
    let ghost ls = module_prop_lines(module_id@, author@, version_code as int);
    let ghost base = s@;
    proof {
        reveal_strlit(" = \"");
        reveal_strlit("\"");
        reveal_strlit("\n");
        reveal_strlit(" = ");
        assert(seg.take(0) =~= Seq::<Seq<char>>::empty());
        assert(crate::text::join_nl(seg.take(0)) == Seq::<char>::empty());
        assert(s@ =~= base + crate::text::join_nl(seg.take(0)));
    }
    s.append("# hello = \"echo 'world'\"");
    s.append("\n");
    proof {
        assert(seg.take(0).push(seg[0]) =~= seg.take(1));
        crate::text::lemma_join_nl_snoc(seg.take(0), seg[0]);
        assert(seg[0] == ls[10]);
        assert(ls[10] == "# hello = \"echo 'world'\""@);
        assert(s@ =~= base + crate::text::join_nl(seg.take(0)) + seg[0] + seq!['\n']);
        assert(s@ =~= base + crate::text::join_nl(seg.take(1)));
    }
    s.append("\n");
    proof {
        assert(seg.take(1).push(seg[1]) =~= seg.take(2));
        crate::text::lemma_join_nl_snoc(seg.take(1), seg[1]);
        assert(seg[1] == ls[11]);
        assert(ls[11] == Seq::<char>::empty());
        assert(s@ =~= base + crate::text::join_nl(seg.take(1)) + seg[1] + seq!['\n']);
        assert(s@ =~= base + crate::text::join_nl(seg.take(2)));
    }
    s.append("[build]");
    s.append("\n");
    proof {
        assert(seg.take(2).push(seg[2]) =~= seg.take(3));
        crate::text::lemma_join_nl_snoc(seg.take(2), seg[2]);
        assert(seg[2] == ls[12]);
        assert(ls[12] == "[build]"@);
        assert(s@ =~= base + crate::text::join_nl(seg.take(2)) + seg[2] + seq!['\n']);
        assert(s@ =~= base + crate::text::join_nl(seg.take(3)));
    }
    s.append("# 全局build配置");
    s.append("\n");
    proof {
        assert(seg.take(3).push(seg[3]) =~= seg.take(4));
        crate::text::lemma_join_nl_snoc(seg.take(3), seg[3]);
        assert(seg[3] == ls[13]);
        assert(ls[13] == "# 全局build配置"@);
        assert(s@ =~= base + crate::text::join_nl(seg.take(3)) + seg[3] + seq!['\n']);
        assert(s@ =~= base + crate::text::join_nl(seg.take(4)));
    }
    s.append("[build.module]");
    s.append("\n");
    proof {
        assert(seg.take(4).push(seg[4]) =~= seg.take(5));
        crate::text::lemma_join_nl_snoc(seg.take(4), seg[4]);
        assert(seg[4] == ls[14]);
        assert(ls[14] == "[build.module]"@);
        assert(s@ =~= base + crate::text::join_nl(seg.take(4)) + seg[4] + seq!['\n']);
        assert(s@ =~= base + crate::text::join_nl(seg.take(5)));
    }
    s.append("# extra = [\"Path/to/extra/file1\", \"Path/to/extra/file2\"]");
    s.append("\n");
    proof {
        assert(seg.take(5).push(seg[5]) =~= seg.take(6));
        crate::text::lemma_join_nl_snoc(seg.take(5), seg[5]);
        assert(seg[5] == ls[15]);
        assert(ls[15] == "# extra = [\"Path/to/extra/file1\", \"Path/to/extra/file2\"]"@);
        assert(s@ =~= base + crate::text::join_nl(seg.take(5)) + seg[5] + seq!['\n']);
        assert(s@ =~= base + crate::text::join_nl(seg.take(6)));
    }
    s.append("exclude = [\"src\", \"rust\", \".*\", \"uv.lock\", \"dist\", \"build\"]");
    s.append("\n");
    proof {
        assert(seg.take(6).push(seg[6]) =~= seg.take(7));
        crate::text::lemma_join_nl_snoc(seg.take(6), seg[6]);
        assert(seg[6] == ls[16]);
        assert(ls[16] == "exclude = [\"src\", \"rust\", \".*\", \"uv.lock\", \"dist\", \"build\"]"@);
        assert(s@ =~= base + crate::text::join_nl(seg.take(6)) + seg[6] + seq!['\n']);
        assert(s@ =~= base + crate::text::join_nl(seg.take(7)));
    }
    s.append("\n");
    proof {
        assert(seg.take(7).push(seg[7]) =~= seg.take(8));
        crate::text::lemma_join_nl_snoc(seg.take(7), seg[7]);
        assert(seg[7] == ls[17]);
        assert(ls[17] == Seq::<char>::empty());
        assert(s@ =~= base + crate::text::join_nl(seg.take(7)) + seg[7] + seq!['\n']);
        assert(s@ =~= base + crate::text::join_nl(seg.take(8)));
    }
    s.append("[build.src]");
    s.append("\n");
    proof {
        assert(seg.take(8).push(seg[8]) =~= seg.take(9));
        crate::text::lemma_join_nl_snoc(seg.take(8), seg[8]);
        assert(seg[8] == ls[18]);
        assert(ls[18] == "[build.src]"@);
        assert(s@ =~= base + crate::text::join_nl(seg.take(8)) + seg[8] + seq!['\n']);
        assert(s@ =~= base + crate::text::join_nl(seg.take(9)));
    }
    s.append("# extra = [\"src/extra1\", \"src/extra2\"]");
    s.append("\n");
    proof {
        assert(seg.take(9).push(seg[9]) =~= seg.take(10));
        crate::text::lemma_join_nl_snoc(seg.take(9), seg[9]);
        assert(seg[9] == ls[19]);
        assert(ls[19] == "# extra = [\"src/extra1\", \"src/extra2\"]"@);
        assert(s@ =~= base + crate::text::join_nl(seg.take(9)) + seg[9] + seq!['\n']);
        assert(s@ =~= base + crate::text::join_nl(seg.take(10)));
    }
    s.append("exclude = [\"src\", \"rust\", \".*\", \"uv.lock\", \"dist\", \"build\"]");
    s.append("\n");
    proof {
        assert(seg.take(10).push(seg[10]) =~= seg.take(11));
        crate::text::lemma_join_nl_snoc(seg.take(10), seg[10]);
        assert(seg[10] == ls[20]);
        assert(ls[20] == "exclude = [\"src\", \"rust\", \".*\", \"uv.lock\", \"dist\", \"build\"]"@);
        assert(s@ =~= base + crate::text::join_nl(seg.take(10)) + seg[10] + seq!['\n']);
        assert(s@ =~= base + crate::text::join_nl(seg.take(11)));
    }
    s.append("\n");
    proof {
        assert(seg.take(11).push(seg[11]) =~= seg.take(12));
        crate::text::lemma_join_nl_snoc(seg.take(11), seg[11]);
        assert(seg[11] == ls[21]);
        assert(ls[21] == Seq::<char>::empty());
        assert(s@ =~= base + crate::text::join_nl(seg.take(11)) + seg[11] + seq!['\n']);
        assert(s@ =~= base + crate::text::join_nl(seg.take(12)));
    }
    s.append("[[build.prebuild]]");
    s.append("\n");
    proof {
        assert(seg.take(12).push(seg[12]) =~= seg.take(13));
        crate::text::lemma_join_nl_snoc(seg.take(12), seg[12]);
        assert(seg[12] == ls[22]);
        assert(ls[22] == "[[build.prebuild]]"@);
        assert(s@ =~= base + crate::text::join_nl(seg.take(12)) + seg[12] + seq!['\n']);
        assert(s@ =~= base + crate::text::join_nl(seg.take(13)));
    }
    s.append("step1 = \"echo 'Prebuild step 1: Initializing APMM'\"");
    s.append("\n");
    proof {
        assert(seg.take(13).push(seg[13]) =~= seg.take(14));
        crate::text::lemma_join_nl_snoc(seg.take(13), seg[13]);
        assert(seg[13] == ls[23]);
        assert(ls[23] == "step1 = \"echo 'Prebuild step 1: Initializing APMM'\""@);
        assert(s@ =~= base + crate::text::join_nl(seg.take(13)) + seg[13] + seq!['\n']);
        assert(s@ =~= base + crate::text::join_nl(seg.take(14)));
    }
    s.append("[[build.prebuild]]");
    s.append("\n");
    proof {
        assert(seg.take(14).push(seg[14]) =~= seg.take(15));
        crate::text::lemma_join_nl_snoc(seg.take(14), seg[14]);
        assert(seg[14] == ls[24]);
        assert(ls[24] == "[[build.prebuild]]"@);
        assert(s@ =~= base + crate::text::join_nl(seg.take(14)) + seg[14] + seq!['\n']);
        assert(s@ =~= base + crate::text::join_nl(seg.take(15)));
    }
    s.append("step2 = \"echo 'Prebuild step 2: Checking dependencies'\"");
    s.append("\n");
    proof {
        assert(seg.take(15).push(seg[15]) =~= seg.take(16));
        crate::text::lemma_join_nl_snoc(seg.take(15), seg[15]);
        assert(seg[15] == ls[25]);
        assert(ls[25] == "step2 = \"echo 'Prebuild step 2: Checking dependencies'\""@);
        assert(s@ =~= base + crate::text::join_nl(seg.take(15)) + seg[15] + seq!['\n']);
        assert(s@ =~= base + crate::text::join_nl(seg.take(16)));
    }
    s.append("\n");
    proof {
        assert(seg.take(16).push(seg[16]) =~= seg.take(17));
        crate::text::lemma_join_nl_snoc(seg.take(16), seg[16]);
        assert(seg[16] == ls[26]);
        assert(ls[26] == Seq::<char>::empty());
        assert(s@ =~= base + crate::text::join_nl(seg.take(16)) + seg[16] + seq!['\n']);
        assert(s@ =~= base + crate::text::join_nl(seg.take(17)));
    }
    proof {
        assert(seg.take(17) =~= seg);
    }
}

#[verifier::rlimit(100)]
fn push_module_prop_tail(s: &mut String, module_id: &str, author: &str, version_code: i64)
    ensures
        final(s)@ == old(s)@ + crate::text::join_nl(
            module_prop_lines(module_id@, author@, version_code as int).subrange(27int, 44int),
        ),
{
    let ghost seg = module_prop_lines(module_id@, author@, version_code as int).subrange(
        27int,
        44int,
    );
    let ghost ls = module_prop_lines(module_id@, author@, version_code as int);
    let ghost base = s@;
    proof {
        reveal_strlit(" = \"");
        reveal_strlit("\"");
        reveal_strlit("\n");
        reveal_strlit(" = ");
        assert(seg.take(0) =~= Seq::<Seq<char>>::empty());
        assert(crate::text::join_nl(seg.take(0)) == Seq::<char>::empty());
        assert(s@ =~= base + crate::text::join_nl(seg.take(0)));
    }
    s.append("[[build.build]]");
    s.append("\n");
    proof {
        assert(seg.take(0).push(seg[0]) =~= seg.take(1));
        crate::text::lemma_join_nl_snoc(seg.take(0), seg[0]);
        assert(seg[0] == ls[27]);
        assert(ls[27] == "[[build.build]]"@);
        assert(s@ =~= base + crate::text::join_nl(seg.take(0)) + seg[0] + seq!['\n']);
        assert(s@ =~= base + crate::text::join_nl(seg.take(1)));
    }
    s.append("# 留空以使用apmm默认打包 如果允许完全自定义");
    s.append("\n");
    proof {
        assert(seg.take(1).push(seg[1]) =~= seg.take(2));
        crate::text::lemma_join_nl_snoc(seg.take(1), seg[1]);
        assert(seg[1] == ls[28]);
        assert(ls[28] == "# 留空以使用apmm默认打包 如果允许完全自定义"@);
        assert(s@ =~= base + crate::text::join_nl(seg.take(1)) + seg[1] + seq!['\n']);
        assert(s@ =~= base + crate::text::join_nl(seg.take(2)));
    }
    s.append("\n");
    proof {
        assert(seg.take(2).push(seg[2]) =~= seg.take(3));
        crate::text::lemma_join_nl_snoc(seg.take(2), seg[2]);
        assert(seg[2] == ls[29]);
        assert(ls[29] == Seq::<char>::empty());
        assert(s@ =~= base + crate::text::join_nl(seg.take(2)) + seg[2] + seq!['\n']);
        assert(s@ =~= base + crate::text::join_nl(seg.take(3)));
    }
    s.append("[[build.postbuild]]");
    s.append("\n");
    proof {
        assert(seg.take(3).push(seg[3]) =~= seg.take(4));
        crate::text::lemma_join_nl_snoc(seg.take(3), seg[3]);
        assert(seg[3] == ls[30]);
        assert(ls[30] == "[[build.postbuild]]"@);
        assert(s@ =~= base + crate::text::join_nl(seg.take(3)) + seg[3] + seq!['\n']);
        assert(s@ =~= base + crate::text::join_nl(seg.take(4)));
    }
    s.append("step1 = \"echo 'Postbuild step 1: cleaning up APMM build'\"");
    s.append("\n");
    proof {
        assert(seg.take(4).push(seg[4]) =~= seg.take(5));
        crate::text::lemma_join_nl_snoc(seg.take(4), seg[4]);
        assert(seg[4] == ls[31]);
        assert(ls[31] == "step1 = \"echo 'Postbuild step 1: cleaning up APMM build'\""@);
        assert(s@ =~= base + crate::text::join_nl(seg.take(4)) + seg[4] + seq!['\n']);
        assert(s@ =~= base + crate::text::join_nl(seg.take(5)));
    }
    s.append("[[build.postbuild]]");
    s.append("\n");
    proof {
        assert(seg.take(5).push(seg[5]) =~= seg.take(6));
        crate::text::lemma_join_nl_snoc(seg.take(5), seg[5]);
        assert(seg[5] == ls[32]);
        assert(ls[32] == "[[build.postbuild]]"@);
        assert(s@ =~= base + crate::text::join_nl(seg.take(5)) + seg[5] + seq!['\n']);
        assert(s@ =~= base + crate::text::join_nl(seg.take(6)));
    }
    s.append("step2 = \"echo 'Postbuild step 2: Finalizing APMM build'\"");
    s.append("\n");
    proof {
        assert(seg.take(6).push(seg[6]) =~= seg.take(7));
        crate::text::lemma_join_nl_snoc(seg.take(6), seg[6]);
        assert(seg[6] == ls[33]);
        assert(ls[33] == "step2 = \"echo 'Postbuild step 2: Finalizing APMM build'\""@);
        assert(s@ =~= base + crate::text::join_nl(seg.take(6)) + seg[6] + seq!['\n']);
        assert(s@ =~= base + crate::text::join_nl(seg.take(7)));
    }
    s.append("\n");
    proof {
        assert(seg.take(7).push(seg[7]) =~= seg.take(8));
        crate::text::lemma_join_nl_snoc(seg.take(7), seg[7]);
        assert(seg[7] == ls[34]);
        assert(ls[34] == Seq::<char>::empty());
        assert(s@ =~= base + crate::text::join_nl(seg.take(7)) + seg[7] + seq!['\n']);
        assert(s@ =~= base + crate::text::join_nl(seg.take(8)));
    }
    s.append("[build.system]");
    s.append("\n");
    proof {
        assert(seg.take(8).push(seg[8]) =~= seg.take(9));
        crate::text::lemma_join_nl_snoc(seg.take(8), seg[8]);
        assert(seg[8] == ls[35]);
        assert(ls[35] == "[build.system]"@);
        assert(s@ =~= base + crate::text::join_nl(seg.take(8)) + seg[8] + seq!['\n']);
        assert(s@ =~= base + crate::text::join_nl(seg.take(9)));
    }
    s.append("requires = [\"apmm>=0.3.0\"]");
    s.append("\n");
    proof {
        assert(seg.take(9).push(seg[9]) =~= seg.take(10));
        crate::text::lemma_join_nl_snoc(seg.take(9), seg[9]);
        assert(seg[9] == ls[36]);
        assert(ls[36] == "requires = [\"apmm>=0.3.0\"]"@);
        assert(s@ =~= base + crate::text::join_nl(seg.take(9)) + seg[9] + seq!['\n']);
        assert(s@ =~= base + crate::text::join_nl(seg.take(10)));
    }
    s.append("build-backend = \"apmm\"");
    s.append("\n");
    proof {
        assert(seg.take(10).push(seg[10]) =~= seg.take(11));
        crate::text::lemma_join_nl_snoc(seg.take(10), seg[10]);
        assert(seg[10] == ls[37]);
        assert(ls[37] == "build-backend = \"apmm\""@);
        assert(s@ =~= base + crate::text::join_nl(seg.take(10)) + seg[10] + seq!['\n']);
        assert(s@ =~= base + crate::text::join_nl(seg.take(11)));
    }
    s.append("\n");
    proof {
        assert(seg.take(11).push(seg[11]) =~= seg.take(12));
        crate::text::lemma_join_nl_snoc(seg.take(11), seg[11]);
        assert(seg[11] == ls[38]);
        assert(ls[38] == Seq::<char>::empty());
        assert(s@ =~= base + crate::text::join_nl(seg.take(11)) + seg[11] + seq!['\n']);
        assert(s@ =~= base + crate::text::join_nl(seg.take(12)));
    }
    s.append("[github]");
    s.append("\n");
    proof {
        assert(seg.take(12).push(seg[12]) =~= seg.take(13));
        crate::text::lemma_join_nl_snoc(seg.take(12), seg[12]);
        assert(seg[12] == ls[39]);
        assert(ls[39] == "[github]"@);
        assert(s@ =~= base + crate::text::join_nl(seg.take(12)) + seg[12] + seq!['\n']);
        assert(s@ =~= base + crate::text::join_nl(seg.take(13)));
    }
    s.append("# repo = \"\"");
    s.append("\n");
    proof {
        assert(seg.take(13).push(seg[13]) =~= seg.take(14));
        crate::text::lemma_join_nl_snoc(seg.take(13), seg[13]);
        assert(seg[13] == ls[40]);
        assert(ls[40] == "# repo = \"\""@);
        assert(s@ =~= base + crate::text::join_nl(seg.take(13)) + seg[13] + seq!['\n']);
        assert(s@ =~= base + crate::text::join_nl(seg.take(14)));
    }
    s.append("# path = \".\" # 这个很重要，表示模块是在仓库根目录下");
    s.append("\n");
    proof {
        assert(seg.take(14).push(seg[14]) =~= seg.take(15));
        crate::text::lemma_join_nl_snoc(seg.take(14), seg[14]);
        assert(seg[14] == ls[41]);
        assert(ls[41] == "# path = \".\" # 这个很重要，表示模块是在仓库根目录下"@);
        assert(s@ =~= base + crate::text::join_nl(seg.take(14)) + seg[14] + seq!['\n']);
        assert(s@ =~= base + crate::text::join_nl(seg.take(15)));
    }
    s.append("# branch = \"main\"");
    s.append("\n");
    proof {
        assert(seg.take(15).push(seg[15]) =~= seg.take(16));
        crate::text::lemma_join_nl_snoc(seg.take(15), seg[15]);
        assert(seg[15] == ls[42]);
        assert(ls[42] == "# branch = \"main\""@);
        assert(s@ =~= base + crate::text::join_nl(seg.take(15)) + seg[15] + seq!['\n']);
        assert(s@ =~= base + crate::text::join_nl(seg.take(16)));
    }
    s.append("# proxy-provider = \"https://api.akams.cn/github\"");
    s.append("\n");
    proof {
        assert(seg.take(16).push(seg[16]) =~= seg.take(17));
        crate::text::lemma_join_nl_snoc(seg.take(16), seg[16]);
        assert(seg[16] == ls[43]);
        assert(ls[43] == "# proxy-provider = \"https://api.akams.cn/github\""@);
        assert(s@ =~= base + crate::text::join_nl(seg.take(16)) + seg[16] + seq!['\n']);
        assert(s@ =~= base + crate::text::join_nl(seg.take(17)));
    }
    proof {
        assert(seg.take(17) =~= seg);
    }
}

/// The manifest of a fresh project: scalar fields from the arguments,
/// defaults everywhere else, and an example build pipeline.
pub fn generate_module_prop(module_id: &str, author: &str, version_code: i64) -> (r: String)
    ensures
        r@ == module_prop_text(module_id@, author@, version_code as int),
{
    let ghost ls = module_prop_lines(module_id@, author@, version_code as int);
    let mut s = String::new();
    push_module_prop_head(&mut s, module_id, author, version_code);
    push_module_prop_mid(&mut s, module_id, author, version_code);
    push_module_prop_tail(&mut s, module_id, author, version_code);
    proof {
        assert(ls.subrange(0, 10) + ls.subrange(10, 27) =~= ls.subrange(0, 27));
        crate::text::lemma_join_nl_concat(ls.subrange(0, 10), ls.subrange(10, 27));
        assert(ls.subrange(0, 27) + ls.subrange(27, 44) =~= ls);
        crate::text::lemma_join_nl_concat(ls.subrange(0, 27), ls.subrange(27, 44));
        assert(s@ =~= crate::text::join_nl(ls));
    }
    s
}

/// No line of the fresh manifest contains a newline, given that the
/// spliced identifier and author do not.
#[verifier::rlimit(100)]
proof fn lemma_module_prop_lines_nl_free(id: Seq<char>, author: Seq<char>, code: int)
    requires
        crate::text::nl_free(id),
        crate::text::nl_free(author),
        i64::MIN <= code <= i64::MAX,
    ensures
        forall|i: int|
            0 <= i < module_prop_lines(id, author, code).len() ==> crate::text::nl_free(
                #[trigger] module_prop_lines(id, author, code)[i],
            ),
{
    reveal_strlit("\nauthor = \"");
    reveal_strlit("\"\ndescription = \"APMM (Android Patch Module Manager)\"\nversion = \"v0.1.0\"\nversionCode = ");
    reveal_strlit("\"\nlicense = \"MIT\"\n# updateJson = \"\"\n\n[script]\n# hello = \"echo 'world'\"\n\n[build]\n# 全局build配置\n[build.module]\n# extra = [\"Path/to/extra/file1\", \"Path/to/extra/file2\"]\nexclude = [\"src\", \"rust\", \".*\", \"uv.lock\", \"dist\", \"build\"]\n\n[build.src]\n# extra = [\"src/extra1\", \"src/extra2\"]\nexclude = [\"src\", \"rust\", \".*\", \"uv.lock\", \"dist\", \"build\"]\n\n[[build.prebuild]]\nstep1 = \"echo 'Prebuild step 1: Initializing APMM'\"\n[[build.prebuild]]\nstep2 = \"echo 'Prebuild step 2: Checking dependencies'\"\n\n[[build.build]]\n# 留空以使用apmm默认打包 如果允许完全自定义\n\n[[build.postbuild]]\nstep1 = \"echo 'Postbuild step 1: cleaning up APMM build'\"\n[[build.postbuild]]\nstep2 = \"echo 'Postbuild step 2: Finalizing APMM build'\"\n\n[build.system]\nrequires = [\"apmm>=0.3.0\"]\nbuild-backend = \"apmm\"\n\n[github]\n# repo = \"\"\n# path = \".\" # 这个很重要，表示模块是在仓库根目录下\n# branch = \"main\"\n# proxy-provider = \"https://api.akams.cn/github\"\n");
    reveal_strlit("\"\nname = \"");
    reveal_strlit("# branch = \"main\"");
    reveal_strlit("# extra = [\"Path/to/extra/file1\", \"Path/to/extra/file2\"]");
    reveal_strlit("# extra = [\"src/extra1\", \"src/extra2\"]");
    reveal_strlit("# hello = \"echo 'world'\"");
    reveal_strlit("# path = \".\" # 这个很重要，表示模块是在仓库根目录下");
    reveal_strlit("# proxy-provider = \"https://api.akams.cn/github\"");
    reveal_strlit("# repo = \"\"");
    reveal_strlit("# updateJson = \"\"");
    reveal_strlit("# 全局build配置");
    reveal_strlit("# 留空以使用apmm默认打包 如果允许完全自定义");
    reveal_strlit("APMM (Android Patch Module Manager)");
    reveal_strlit("MIT");
    reveal_strlit("[[build.build]]");
    reveal_strlit("[[build.postbuild]]");
    reveal_strlit("[[build.prebuild]]");
    reveal_strlit("[build.module]");
    reveal_strlit("[build.src]");
    reveal_strlit("[build.system]");
    reveal_strlit("[build]");
    reveal_strlit("[github]");
    reveal_strlit("[script]");
    reveal_strlit("author");
    reveal_strlit("build-backend");
    reveal_strlit("build-backend = \"apmm\"");
    reveal_strlit("build.build");
    reveal_strlit("build.postbuild");
    reveal_strlit("build.prebuild");
    reveal_strlit("build.system");
    reveal_strlit("description");
    reveal_strlit("exclude = [\"src\", \"rust\", \".*\", \"uv.lock\", \"dist\", \"build\"]");
    reveal_strlit("id");
    reveal_strlit("id = \"");
    reveal_strlit("license");
    reveal_strlit("name");
    reveal_strlit("requires");
    reveal_strlit("requires = [\"apmm>=0.3.0\"]");
    reveal_strlit("script");
    reveal_strlit("step1 = \"echo 'Postbuild step 1: cleaning up APMM build'\"");
    reveal_strlit("step1 = \"echo 'Prebuild step 1: Initializing APMM'\"");
    reveal_strlit("step2 = \"echo 'Postbuild step 2: Finalizing APMM build'\"");
    reveal_strlit("step2 = \"echo 'Prebuild step 2: Checking dependencies'\"");
    reveal_strlit("v0.1.0");
    reveal_strlit("version");
    reveal_strlit("versionCode");
    let ls = module_prop_lines(id, author, code);
    crate::num::lemma_dec_i64_chars(code);
    let dc = crate::num::dec_i64(code);
    assert forall|k2: int| 0 <= k2 < dc.len() implies dc[k2] != '\n' by {
        if dc[k2] != '-' {
            crate::num::lemma_digit_char_facts(dc[k2]);
        }
    }
    assert(crate::text::nl_free(dc));
    crate::text::lemma_nl_free_concat("id"@, seq![' ', '=', ' ', '"']);
    crate::text::lemma_nl_free_concat("id"@ + seq![' ', '=', ' ', '"'], id);
    crate::text::lemma_nl_free_concat("id"@ + seq![' ', '=', ' ', '"'] + id, seq!['"']);
    crate::text::lemma_nl_free_concat("name"@, seq![' ', '=', ' ', '"']);
    crate::text::lemma_nl_free_concat("name"@ + seq![' ', '=', ' ', '"'], id);
    crate::text::lemma_nl_free_concat("name"@ + seq![' ', '=', ' ', '"'] + id, seq!['"']);
    crate::text::lemma_nl_free_concat("description"@, seq![' ', '=', ' ', '"']);
    crate::text::lemma_nl_free_concat("description"@ + seq![' ', '=', ' ', '"'], "APMM (Android Patch Module Manager)"@);
    crate::text::lemma_nl_free_concat("description"@ + seq![' ', '=', ' ', '"'] + "APMM (Android Patch Module Manager)"@, seq!['"']);
    crate::text::lemma_nl_free_concat("version"@, seq![' ', '=', ' ', '"']);
    crate::text::lemma_nl_free_concat("version"@ + seq![' ', '=', ' ', '"'], "v0.1.0"@);
    crate::text::lemma_nl_free_concat("version"@ + seq![' ', '=', ' ', '"'] + "v0.1.0"@, seq!['"']);
    crate::text::lemma_nl_free_concat("versionCode"@, seq![' ', '=', ' ']);
    crate::text::lemma_nl_free_concat("versionCode"@ + seq![' ', '=', ' '], dc);
    crate::text::lemma_nl_free_concat("author"@, seq![' ', '=', ' ', '"']);
    crate::text::lemma_nl_free_concat("author"@ + seq![' ', '=', ' ', '"'], author);
    crate::text::lemma_nl_free_concat("author"@ + seq![' ', '=', ' ', '"'] + author, seq!['"']);
    crate::text::lemma_nl_free_concat("license"@, seq![' ', '=', ' ', '"']);
    crate::text::lemma_nl_free_concat("license"@ + seq![' ', '=', ' ', '"'], "MIT"@);
    crate::text::lemma_nl_free_concat("license"@ + seq![' ', '=', ' ', '"'] + "MIT"@, seq!['"']);
    assert forall|i: int| 0 <= i < ls.len() implies crate::text::nl_free(#[trigger] ls[i]) by {
        if i == 0 {
            assert(ls[0] == "id"@ + seq![' ', '=', ' ', '"'] + id + seq!['"']);
        } else if i == 1 {
            assert(ls[1] == "name"@ + seq![' ', '=', ' ', '"'] + id + seq!['"']);
        } else if i == 2 {
            assert(ls[2] == "description"@ + seq![' ', '=', ' ', '"'] + "APMM (Android Patch Module Manager)"@ + seq!['"']);
        } else if i == 3 {
            assert(ls[3] == "version"@ + seq![' ', '=', ' ', '"'] + "v0.1.0"@ + seq!['"']);
        } else if i == 4 {
            assert(ls[4] == "versionCode"@ + seq![' ', '=', ' '] + crate::num::dec_i64(code));
        } else if i == 5 {
            assert(ls[5] == "author"@ + seq![' ', '=', ' ', '"'] + author + seq!['"']);
        } else if i == 6 {
            assert(ls[6] == "license"@ + seq![' ', '=', ' ', '"'] + "MIT"@ + seq!['"']);
        } else if i == 7 {
            assert(ls[7] == "# updateJson = \"\""@);
        } else if i == 8 {
            assert(ls[8] == Seq::<char>::empty());
        } else if i == 9 {
            assert(ls[9] == "[script]"@);
        } else if i == 10 {
            assert(ls[10] == "# hello = \"echo 'world'\""@);
        } else if i == 11 {
            assert(ls[11] == Seq::<char>::empty());
        } else if i == 12 {
            assert(ls[12] == "[build]"@);
        } else if i == 13 {
            assert(ls[13] == "# 全局build配置"@);
        } else if i == 14 {
            assert(ls[14] == "[build.module]"@);
        } else if i == 15 {
            assert(ls[15] == "# extra = [\"Path/to/extra/file1\", \"Path/to/extra/file2\"]"@);
        } else if i == 16 {
            assert(ls[16] == "exclude = [\"src\", \"rust\", \".*\", \"uv.lock\", \"dist\", \"build\"]"@);
        } else if i == 17 {
            assert(ls[17] == Seq::<char>::empty());
        } else if i == 18 {
            assert(ls[18] == "[build.src]"@);
        } else if i == 19 {
            assert(ls[19] == "# extra = [\"src/extra1\", \"src/extra2\"]"@);
        } else if i == 20 {
            assert(ls[20] == "exclude = [\"src\", \"rust\", \".*\", \"uv.lock\", \"dist\", \"build\"]"@);
        } else if i == 21 {
            assert(ls[21] == Seq::<char>::empty());
        } else if i == 22 {
            assert(ls[22] == "[[build.prebuild]]"@);
        } else if i == 23 {
            assert(ls[23] == "step1 = \"echo 'Prebuild step 1: Initializing APMM'\""@);
        } else if i == 24 {
            assert(ls[24] == "[[build.prebuild]]"@);
        } else if i == 25 {
            assert(ls[25] == "step2 = \"echo 'Prebuild step 2: Checking dependencies'\""@);
        } else if i == 26 {
            assert(ls[26] == Seq::<char>::empty());
        } else if i == 27 {
            assert(ls[27] == "[[build.build]]"@);
        } else if i == 28 {
            assert(ls[28] == "# 留空以使用apmm默认打包 如果允许完全自定义"@);
        } else if i == 29 {
            assert(ls[29] == Seq::<char>::empty());
        } else if i == 30 {
            assert(ls[30] == "[[build.postbuild]]"@);
        } else if i == 31 {
            assert(ls[31] == "step1 = \"echo 'Postbuild step 1: cleaning up APMM build'\""@);
        } else if i == 32 {
            assert(ls[32] == "[[build.postbuild]]"@);
        } else if i == 33 {
            assert(ls[33] == "step2 = \"echo 'Postbuild step 2: Finalizing APMM build'\""@);
        } else if i == 34 {
            assert(ls[34] == Seq::<char>::empty());
        } else if i == 35 {
            assert(ls[35] == "[build.system]"@);
        } else if i == 36 {
            assert(ls[36] == "requires = [\"apmm>=0.3.0\"]"@);
        } else if i == 37 {
            assert(ls[37] == "build-backend = \"apmm\""@);
        } else if i == 38 {
            assert(ls[38] == Seq::<char>::empty());
        } else if i == 39 {
            assert(ls[39] == "[github]"@);
        } else if i == 40 {
            assert(ls[40] == "# repo = \"\""@);
        } else if i == 41 {
            assert(ls[41] == "# path = \".\" # 这个很重要，表示模块是在仓库根目录下"@);
        } else if i == 42 {
            assert(ls[42] == "# branch = \"main\""@);
        } else if i == 43 {
            assert(ls[43] == "# proxy-provider = \"https://api.akams.cn/github\""@);
        } else {
        }
    }
}

/// The first lines of the fresh manifest set every scalar field and end
/// with the first section open.
#[verifier::rlimit(100)]
proof fn lemma_module_prop_head(id: Seq<char>, author: Seq<char>, code: int)
    requires
        i64::MIN <= code <= i64::MAX,
    ensures
        scan_lines(init_scan_state(), module_prop_lines(id, author, code).subrange(0, 10))
            =~~= (ScanState {
            section: "script"@,
            array_section: Seq::<char>::empty(),
            id: Some(id),
            name: Some(id),
            description: Some("APMM (Android Patch Module Manager)"@),
            version: Some("v0.1.0"@),
            version_code: Some(crate::num::dec_i64(code)),
            author: Some(author),
            license: Some("MIT"@),
            prebuild: Seq::<crate::manifest::StepModel>::empty(),
            build: Seq::<crate::manifest::StepModel>::empty(),
            postbuild: Seq::<crate::manifest::StepModel>::empty(),
            requires: Seq::<Seq<char>>::empty(),
            backend: "apmm"@,
        }),
{
    reveal_strlit("\nauthor = \"");
    reveal_strlit("\"\ndescription = \"APMM (Android Patch Module Manager)\"\nversion = \"v0.1.0\"\nversionCode = ");
    reveal_strlit("\"\nlicense = \"MIT\"\n# updateJson = \"\"\n\n[script]\n# hello = \"echo 'world'\"\n\n[build]\n# 全局build配置\n[build.module]\n# extra = [\"Path/to/extra/file1\", \"Path/to/extra/file2\"]\nexclude = [\"src\", \"rust\", \".*\", \"uv.lock\", \"dist\", \"build\"]\n\n[build.src]\n# extra = [\"src/extra1\", \"src/extra2\"]\nexclude = [\"src\", \"rust\", \".*\", \"uv.lock\", \"dist\", \"build\"]\n\n[[build.prebuild]]\nstep1 = \"echo 'Prebuild step 1: Initializing APMM'\"\n[[build.prebuild]]\nstep2 = \"echo 'Prebuild step 2: Checking dependencies'\"\n\n[[build.build]]\n# 留空以使用apmm默认打包 如果允许完全自定义\n\n[[build.postbuild]]\nstep1 = \"echo 'Postbuild step 1: cleaning up APMM build'\"\n[[build.postbuild]]\nstep2 = \"echo 'Postbuild step 2: Finalizing APMM build'\"\n\n[build.system]\nrequires = [\"apmm>=0.3.0\"]\nbuild-backend = \"apmm\"\n\n[github]\n# repo = \"\"\n# path = \".\" # 这个很重要，表示模块是在仓库根目录下\n# branch = \"main\"\n# proxy-provider = \"https://api.akams.cn/github\"\n");
    reveal_strlit("\"\nname = \"");
    reveal_strlit("# branch = \"main\"");
    reveal_strlit("# extra = [\"Path/to/extra/file1\", \"Path/to/extra/file2\"]");
    reveal_strlit("# extra = [\"src/extra1\", \"src/extra2\"]");
    reveal_strlit("# hello = \"echo 'world'\"");
    reveal_strlit("# path = \".\" # 这个很重要，表示模块是在仓库根目录下");
    reveal_strlit("# proxy-provider = \"https://api.akams.cn/github\"");
    reveal_strlit("# repo = \"\"");
    reveal_strlit("# updateJson = \"\"");
    reveal_strlit("# 全局build配置");
    reveal_strlit("# 留空以使用apmm默认打包 如果允许完全自定义");
    reveal_strlit("APMM (Android Patch Module Manager)");
    reveal_strlit("MIT");
    reveal_strlit("[[build.build]]");
    reveal_strlit("[[build.postbuild]]");
    reveal_strlit("[[build.prebuild]]");
    reveal_strlit("[build.module]");
    reveal_strlit("[build.src]");
    reveal_strlit("[build.system]");
    reveal_strlit("[build]");
    reveal_strlit("[github]");
    reveal_strlit("[script]");
    reveal_strlit("author");
    reveal_strlit("build-backend");
    reveal_strlit("build-backend = \"apmm\"");
    reveal_strlit("build.build");
    reveal_strlit("build.postbuild");
    reveal_strlit("build.prebuild");
    reveal_strlit("build.system");
    reveal_strlit("description");
    reveal_strlit("exclude = [\"src\", \"rust\", \".*\", \"uv.lock\", \"dist\", \"build\"]");
    reveal_strlit("id");
    reveal_strlit("id = \"");
    reveal_strlit("license");
    reveal_strlit("name");
    reveal_strlit("requires");
    reveal_strlit("requires = [\"apmm>=0.3.0\"]");
    reveal_strlit("script");
    reveal_strlit("step1 = \"echo 'Postbuild step 1: cleaning up APMM build'\"");
    reveal_strlit("step1 = \"echo 'Prebuild step 1: Initializing APMM'\"");
    reveal_strlit("step2 = \"echo 'Postbuild step 2: Finalizing APMM build'\"");
    reveal_strlit("step2 = \"echo 'Prebuild step 2: Checking dependencies'\"");
    reveal_strlit("v0.1.0");
    reveal_strlit("version");
    reveal_strlit("versionCode");
    let ls = module_prop_lines(id, author, code);
    let seg = ls.subrange(0, 10);
    crate::num::lemma_dec_i64_chars(code);
    let dc = crate::num::dec_i64(code);
    let st0 = init_scan_state();
    assert(st0.section.len() == 0 && st0.array_section.len() == 0);
    // line 1
    assert(seg.skip(0)[0] == seg[0]);
    assert(seg.skip(0).drop_first() =~= seg.skip(1));
    assert(seg[0] == ls[0]);
    assert(ls[0] == "id"@ + seq![' ', '=', ' ', '"'] + id + seq!['"']);
    assert forall|j2: int| 0 <= j2 < "id"@.len() implies "id"@[j2] != '='
        && !crate::text::is_wspace("id"@[j2]) by {}
    lemma_scan_scalar_quoted(st0, "id"@, id);
    let st1 = scan_line(st0, seg[0]);
    assert(st1 == scan_kv(st0, "id"@, id));
    assert(st0.array_section.len() == 0);
    assert(st0.section != "build.system"@);
    assert(st0.section.len() == 0);
    assert(st1 == ScanState { id: Some(id), ..st0 });
    assert(st1.section.len() == 0 && st1.array_section.len() == 0);
    assert(scan_lines(st0, seg.skip(0)) == scan_lines(st1, seg.skip(1)));
    // line 2
    assert(seg.skip(1)[0] == seg[1]);
    assert(seg.skip(1).drop_first() =~= seg.skip(2));
    assert(seg[1] == ls[1]);
    assert(ls[1] == "name"@ + seq![' ', '=', ' ', '"'] + id + seq!['"']);
    assert forall|j2: int| 0 <= j2 < "name"@.len() implies "name"@[j2] != '='
        && !crate::text::is_wspace("name"@[j2]) by {}
    lemma_scan_scalar_quoted(st1, "name"@, id);
    let st2 = scan_line(st1, seg[1]);
    assert(st2 == scan_kv(st1, "name"@, id));
    assert(st1.array_section.len() == 0);
    assert(st1.section != "build.system"@);
    assert(st1.section.len() == 0);
    assert("name"@ != "id"@);
    assert(st2 == ScanState { name: Some(id), ..st1 });
    assert(st2.section.len() == 0 && st2.array_section.len() == 0);
    assert(scan_lines(st1, seg.skip(1)) == scan_lines(st2, seg.skip(2)));
    // line 3
    assert(seg.skip(2)[0] == seg[2]);
    assert(seg.skip(2).drop_first() =~= seg.skip(3));
    assert(seg[2] == ls[2]);
    assert(ls[2] == "description"@ + seq![' ', '=', ' ', '"'] + "APMM (Android Patch Module Manager)"@ + seq!['"']);
    assert forall|j2: int| 0 <= j2 < "description"@.len() implies "description"@[j2] != '='
        && !crate::text::is_wspace("description"@[j2]) by {}
    lemma_scan_scalar_quoted(st2, "description"@, "APMM (Android Patch Module Manager)"@);
    let st3 = scan_line(st2, seg[2]);
    assert(st3 == scan_kv(st2, "description"@, "APMM (Android Patch Module Manager)"@));
    assert(st2.array_section.len() == 0);
    assert(st2.section != "build.system"@);
    assert(st2.section.len() == 0);
    assert("description"@ != "id"@);
    assert("description"@ != "name"@);
    assert(st3 == ScanState { description: Some("APMM (Android Patch Module Manager)"@), ..st2 });
    assert(st3.section.len() == 0 && st3.array_section.len() == 0);
    assert(scan_lines(st2, seg.skip(2)) == scan_lines(st3, seg.skip(3)));
    // line 4
    assert(seg.skip(3)[0] == seg[3]);
    assert(seg.skip(3).drop_first() =~= seg.skip(4));
    assert(seg[3] == ls[3]);
    assert(ls[3] == "version"@ + seq![' ', '=', ' ', '"'] + "v0.1.0"@ + seq!['"']);
    assert forall|j2: int| 0 <= j2 < "version"@.len() implies "version"@[j2] != '='
        && !crate::text::is_wspace("version"@[j2]) by {}
    lemma_scan_scalar_quoted(st3, "version"@, "v0.1.0"@);
    let st4 = scan_line(st3, seg[3]);
    assert(st4 == scan_kv(st3, "version"@, "v0.1.0"@));
    assert(st3.array_section.len() == 0);
    assert(st3.section != "build.system"@);
    assert(st3.section.len() == 0);
    assert("version"@ != "id"@);
    assert("version"@ != "name"@);
    assert("version"@ != "description"@);
    assert(st4 == ScanState { version: Some("v0.1.0"@), ..st3 });
    assert(st4.section.len() == 0 && st4.array_section.len() == 0);
    assert(scan_lines(st3, seg.skip(3)) == scan_lines(st4, seg.skip(4)));
    // line 5
    assert(seg.skip(4)[0] == seg[4]);
    assert(seg.skip(4).drop_first() =~= seg.skip(5));
    assert(seg[4] == ls[4]);
    assert(ls[4] == "versionCode"@ + seq![' ', '=', ' '] + crate::num::dec_i64(code));
    assert forall|j2: int| 0 <= j2 < "versionCode"@.len() implies "versionCode"@[j2] != '='
        && !crate::text::is_wspace("versionCode"@[j2]) by {}
    assert(dc.len() > 0);
    if dc[0] != '-' {
        crate::num::lemma_digit_char_facts(dc[0]);
    }
    assert(!crate::text::is_wspace(dc[0]));
    assert(dc[0] != '\"');
    crate::num::lemma_digit_char_facts(dc.last());
    assert(!crate::text::is_wspace(dc.last()));
    lemma_scan_scalar_plain(st4, "versionCode"@, dc);
    let st5 = scan_line(st4, seg[4]);
    assert(st5 == scan_kv(st4, "versionCode"@, dc));
    assert(st4.array_section.len() == 0);
    assert(st4.section != "build.system"@);
    assert(st4.section.len() == 0);
    assert("versionCode"@ != "id"@);
    assert("versionCode"@ != "name"@);
    assert("versionCode"@ != "description"@);
    assert("versionCode"@ != "version"@);
    assert(st5 == ScanState { version_code: Some(dc), ..st4 });
    assert(st5.section.len() == 0 && st5.array_section.len() == 0);
    assert(scan_lines(st4, seg.skip(4)) == scan_lines(st5, seg.skip(5)));
    // line 6
    assert(seg.skip(5)[0] == seg[5]);
    assert(seg.skip(5).drop_first() =~= seg.skip(6));
    assert(seg[5] == ls[5]);
    assert(ls[5] == "author"@ + seq![' ', '=', ' ', '"'] + author + seq!['"']);
    assert forall|j2: int| 0 <= j2 < "author"@.len() implies "author"@[j2] != '='
        && !crate::text::is_wspace("author"@[j2]) by {}
    lemma_scan_scalar_quoted(st5, "author"@, author);
    let st6 = scan_line(st5, seg[5]);
    assert(st6 == scan_kv(st5, "author"@, author));
    assert(st5.array_section.len() == 0);
    assert(st5.section != "build.system"@);
    assert(st5.section.len() == 0);
    assert("author"@ != "id"@);
    assert("author"@ != "name"@);
    assert("author"@ != "description"@);
    assert("author"@ != "version"@);
    assert("author"@ != "versionCode"@);
    assert(st6 == ScanState { author: Some(author), ..st5 });
    assert(st6.section.len() == 0 && st6.array_section.len() == 0);
    assert(scan_lines(st5, seg.skip(5)) == scan_lines(st6, seg.skip(6)));
    // line 7
    assert(seg.skip(6)[0] == seg[6]);
    assert(seg.skip(6).drop_first() =~= seg.skip(7));
    assert(seg[6] == ls[6]);
    assert(ls[6] == "license"@ + seq![' ', '=', ' ', '"'] + "MIT"@ + seq!['"']);
    assert forall|j2: int| 0 <= j2 < "license"@.len() implies "license"@[j2] != '='
        && !crate::text::is_wspace("license"@[j2]) by {}
    lemma_scan_scalar_quoted(st6, "license"@, "MIT"@);
    let st7 = scan_line(st6, seg[6]);
    assert(st7 == scan_kv(st6, "license"@, "MIT"@));
    assert(st6.array_section.len() == 0);
    assert(st6.section != "build.system"@);
    assert(st6.section.len() == 0);
    assert("license"@ != "id"@);
    assert("license"@ != "name"@);
    assert("license"@ != "description"@);
    assert("license"@ != "version"@);
    assert("license"@ != "versionCode"@);
    assert("license"@ != "author"@);
    assert(st7 == ScanState { license: Some("MIT"@), ..st6 });
    assert(st7.section.len() == 0 && st7.array_section.len() == 0);
    assert(scan_lines(st6, seg.skip(6)) == scan_lines(st7, seg.skip(7)));
    // line 8
    assert(seg.skip(7)[0] == seg[7]);
    assert(seg.skip(7).drop_first() =~= seg.skip(8));
    assert(seg[7] == ls[7]);
    assert(ls[7] == "# updateJson = \"\""@);
    assert(crate::text::trim_front("# updateJson = \"\""@) == "# updateJson = \"\""@);
    assert(crate::text::trim_back("# updateJson = \"\""@) == "# updateJson = \"\""@);
    assert(crate::text::spec_trim("# updateJson = \"\""@) == "# updateJson = \"\""@);
    assert(crate::text::spec_trim(seg[7])[0] == '#');
    let st8 = scan_line(st7, seg[7]);
    assert(st8 == st7);
    assert(scan_lines(st7, seg.skip(7)) == scan_lines(st8, seg.skip(8)));
    // line 9
    assert(seg.skip(8)[0] == seg[8]);
    assert(seg.skip(8).drop_first() =~= seg.skip(9));
    assert(seg[8] == ls[8]);
    assert(ls[8] == Seq::<char>::empty());
    assert(crate::text::trim_front(Seq::<char>::empty()) == Seq::<char>::empty());
    assert(crate::text::trim_back(Seq::<char>::empty()) == Seq::<char>::empty());
    assert(crate::text::spec_trim(seg[8]) == Seq::<char>::empty());
    let st9 = scan_line(st8, seg[8]);
    assert(st9 == st8);
    assert(scan_lines(st8, seg.skip(8)) == scan_lines(st9, seg.skip(9)));
    // line 10
    assert(seg.skip(9)[0] == seg[9]);
    assert(seg.skip(9).drop_first() =~= seg.skip(10));
    assert(seg[9] == ls[9]);
    assert(ls[9] == "[script]"@);
    assert(crate::text::trim_front("[script]"@) == "[script]"@);
    assert(crate::text::trim_back("[script]"@) == "[script]"@);
    assert(crate::text::spec_trim("[script]"@) == "[script]"@);
    assert(!is_array_header("[script]"@));
    assert(is_scalar_header("[script]"@));
    let st10 = scan_line(st9, seg[9]);
    assert(st10 == ScanState {
        section: "[script]"@.subrange(1, 7),
        array_section: Seq::<char>::empty(),
        ..st9
    });
    assert("[script]"@.subrange(1, 7) =~= "script"@);
    assert(scan_lines(st9, seg.skip(9)) == scan_lines(st10, seg.skip(10)));
    assert(seg.skip(10) =~= Seq::<Seq<char>>::empty());
    assert(scan_lines(st10, seg.skip(10)) == st10);
    assert(seg.skip(0) =~= seg);
    assert(scan_lines(st0, seg) == st10);
}

/// The remaining template lines run inside open sections and leave
/// every scalar field alone.
#[verifier::rlimit(100)]
proof fn lemma_module_prop_mid_lines(st: ScanState, id: Seq<char>, author: Seq<char>, code: int)
    requires
        st.section.len() > 0 || st.array_section.len() > 0,
    ensures
        ({
            let res = scan_lines(st, module_prop_lines(id, author, code).subrange(10int, 27int));
            &&& res.id == st.id
            &&& res.name == st.name
            &&& res.description == st.description
            &&& res.version == st.version
            &&& res.version_code == st.version_code
            &&& res.author == st.author
            &&& res.license == st.license
            &&& (res.section.len() > 0 || res.array_section.len() > 0)
        }),
{
    reveal_strlit("# hello = \"echo 'world'\"");
    reveal_strlit("[build]");
    reveal_strlit("# 全局build配置");
    reveal_strlit("[build.module]");
    reveal_strlit("# extra = [\"Path/to/extra/file1\", \"Path/to/extra/file2\"]");
    reveal_strlit("exclude = [\"src\", \"rust\", \".*\", \"uv.lock\", \"dist\", \"build\"]");
    reveal_strlit("[build.src]");
    reveal_strlit("# extra = [\"src/extra1\", \"src/extra2\"]");
    reveal_strlit("[[build.prebuild]]");
    reveal_strlit("step1 = \"echo 'Prebuild step 1: Initializing APMM'\"");
    reveal_strlit("step2 = \"echo 'Prebuild step 2: Checking dependencies'\"");
    let ls = module_prop_lines(id, author, code);
    let seg = ls.subrange(10int, 27int);
    let st0 = st;
    // line 11
    assert(seg.skip(0)[0] == seg[0]);
    assert(seg.skip(0).drop_first() =~= seg.skip(1));
    assert(seg[0] == ls[10]);
    assert(ls[10] == "# hello = \"echo 'world'\""@);
    assert(crate::text::trim_front("# hello = \"echo 'world'\""@) == "# hello = \"echo 'world'\""@);
    assert(crate::text::trim_back("# hello = \"echo 'world'\""@) == "# hello = \"echo 'world'\""@);
    assert(crate::text::spec_trim("# hello = \"echo 'world'\""@) == "# hello = \"echo 'world'\""@);
    assert(crate::text::spec_trim(seg[0]) != seq!['[', ']']);
    assert(crate::text::spec_trim(seg[0]) != seq!['[', '[', ']', ']']);
    lemma_scalars_stable(st0, seg[0]);
    let st1 = scan_line(st0, seg[0]);
    assert(scan_lines(st0, seg.skip(0)) == scan_lines(st1, seg.skip(1)));
    // line 12
    assert(seg.skip(1)[0] == seg[1]);
    assert(seg.skip(1).drop_first() =~= seg.skip(2));
    assert(seg[1] == ls[11]);
    assert(ls[11] == Seq::<char>::empty());
    assert(crate::text::trim_front(Seq::<char>::empty()) == Seq::<char>::empty());
    assert(crate::text::trim_back(Seq::<char>::empty()) == Seq::<char>::empty());
    assert(crate::text::spec_trim(seg[1]) == Seq::<char>::empty());
    assert(crate::text::spec_trim(seg[1]) != seq!['[', ']']);
    assert(crate::text::spec_trim(seg[1]) != seq!['[', '[', ']', ']']);
    lemma_scalars_stable(st1, seg[1]);
    let st2 = scan_line(st1, seg[1]);
    assert(scan_lines(st1, seg.skip(1)) == scan_lines(st2, seg.skip(2)));
    // line 13
    assert(seg.skip(2)[0] == seg[2]);
    assert(seg.skip(2).drop_first() =~= seg.skip(3));
    assert(seg[2] == ls[12]);
    assert(ls[12] == "[build]"@);
    assert(crate::text::trim_front("[build]"@) == "[build]"@);
    assert(crate::text::trim_back("[build]"@) == "[build]"@);
    assert(crate::text::spec_trim("[build]"@) == "[build]"@);
    assert(crate::text::spec_trim(seg[2]) != seq!['[', ']']);
    assert(crate::text::spec_trim(seg[2]) != seq!['[', '[', ']', ']']);
    lemma_scalars_stable(st2, seg[2]);
    let st3 = scan_line(st2, seg[2]);
    assert(scan_lines(st2, seg.skip(2)) == scan_lines(st3, seg.skip(3)));
    // line 14
    assert(seg.skip(3)[0] == seg[3]);
    assert(seg.skip(3).drop_first() =~= seg.skip(4));
    assert(seg[3] == ls[13]);
    assert(ls[13] == "# 全局build配置"@);
    assert(crate::text::trim_front("# 全局build配置"@) == "# 全局build配置"@);
    assert(crate::text::trim_back("# 全局build配置"@) == "# 全局build配置"@);
    assert(crate::text::spec_trim("# 全局build配置"@) == "# 全局build配置"@);
    assert(crate::text::spec_trim(seg[3]) != seq!['[', ']']);
    assert(crate::text::spec_trim(seg[3]) != seq!['[', '[', ']', ']']);
    lemma_scalars_stable(st3, seg[3]);
    let st4 = scan_line(st3, seg[3]);
    assert(scan_lines(st3, seg.skip(3)) == scan_lines(st4, seg.skip(4)));
    // line 15
    assert(seg.skip(4)[0] == seg[4]);
    assert(seg.skip(4).drop_first() =~= seg.skip(5));
    assert(seg[4] == ls[14]);
    assert(ls[14] == "[build.module]"@);
    assert(crate::text::trim_front("[build.module]"@) == "[build.module]"@);
    assert(crate::text::trim_back("[build.module]"@) == "[build.module]"@);
    assert(crate::text::spec_trim("[build.module]"@) == "[build.module]"@);
    assert(crate::text::spec_trim(seg[4]) != seq!['[', ']']);
    assert(crate::text::spec_trim(seg[4]) != seq!['[', '[', ']', ']']);
    lemma_scalars_stable(st4, seg[4]);
    let st5 = scan_line(st4, seg[4]);
    assert(scan_lines(st4, seg.skip(4)) == scan_lines(st5, seg.skip(5)));
    // line 16
    assert(seg.skip(5)[0] == seg[5]);
    assert(seg.skip(5).drop_first() =~= seg.skip(6));
    assert(seg[5] == ls[15]);
    assert(ls[15] == "# extra = [\"Path/to/extra/file1\", \"Path/to/extra/file2\"]"@);
    assert(crate::text::trim_front("# extra = [\"Path/to/extra/file1\", \"Path/to/extra/file2\"]"@) == "# extra = [\"Path/to/extra/file1\", \"Path/to/extra/file2\"]"@);
    assert(crate::text::trim_back("# extra = [\"Path/to/extra/file1\", \"Path/to/extra/file2\"]"@) == "# extra = [\"Path/to/extra/file1\", \"Path/to/extra/file2\"]"@);
    assert(crate::text::spec_trim("# extra = [\"Path/to/extra/file1\", \"Path/to/extra/file2\"]"@) == "# extra = [\"Path/to/extra/file1\", \"Path/to/extra/file2\"]"@);
    assert(crate::text::spec_trim(seg[5]) != seq!['[', ']']);
    assert(crate::text::spec_trim(seg[5]) != seq!['[', '[', ']', ']']);
    lemma_scalars_stable(st5, seg[5]);
    let st6 = scan_line(st5, seg[5]);
    assert(scan_lines(st5, seg.skip(5)) == scan_lines(st6, seg.skip(6)));
    // line 17
    assert(seg.skip(6)[0] == seg[6]);
    assert(seg.skip(6).drop_first() =~= seg.skip(7));
    assert(seg[6] == ls[16]);
    assert(ls[16] == "exclude = [\"src\", \"rust\", \".*\", \"uv.lock\", \"dist\", \"build\"]"@);
    assert(crate::text::trim_front("exclude = [\"src\", \"rust\", \".*\", \"uv.lock\", \"dist\", \"build\"]"@) == "exclude = [\"src\", \"rust\", \".*\", \"uv.lock\", \"dist\", \"build\"]"@);
    assert(crate::text::trim_back("exclude = [\"src\", \"rust\", \".*\", \"uv.lock\", \"dist\", \"build\"]"@) == "exclude = [\"src\", \"rust\", \".*\", \"uv.lock\", \"dist\", \"build\"]"@);
    assert(crate::text::spec_trim("exclude = [\"src\", \"rust\", \".*\", \"uv.lock\", \"dist\", \"build\"]"@) == "exclude = [\"src\", \"rust\", \".*\", \"uv.lock\", \"dist\", \"build\"]"@);
    assert(crate::text::spec_trim(seg[6]) != seq!['[', ']']);
    assert(crate::text::spec_trim(seg[6]) != seq!['[', '[', ']', ']']);
    lemma_scalars_stable(st6, seg[6]);
    let st7 = scan_line(st6, seg[6]);
    assert(scan_lines(st6, seg.skip(6)) == scan_lines(st7, seg.skip(7)));
    // line 18
    assert(seg.skip(7)[0] == seg[7]);
    assert(seg.skip(7).drop_first() =~= seg.skip(8));
    assert(seg[7] == ls[17]);
    assert(ls[17] == Seq::<char>::empty());
    assert(crate::text::trim_front(Seq::<char>::empty()) == Seq::<char>::empty());
    assert(crate::text::trim_back(Seq::<char>::empty()) == Seq::<char>::empty());
    assert(crate::text::spec_trim(seg[7]) == Seq::<char>::empty());
    assert(crate::text::spec_trim(seg[7]) != seq!['[', ']']);
    assert(crate::text::spec_trim(seg[7]) != seq!['[', '[', ']', ']']);
    lemma_scalars_stable(st7, seg[7]);
    let st8 = scan_line(st7, seg[7]);
    assert(scan_lines(st7, seg.skip(7)) == scan_lines(st8, seg.skip(8)));
    // line 19
    assert(seg.skip(8)[0] == seg[8]);
    assert(seg.skip(8).drop_first() =~= seg.skip(9));
    assert(seg[8] == ls[18]);
    assert(ls[18] == "[build.src]"@);
    assert(crate::text::trim_front("[build.src]"@) == "[build.src]"@);
    assert(crate::text::trim_back("[build.src]"@) == "[build.src]"@);
    assert(crate::text::spec_trim("[build.src]"@) == "[build.src]"@);
    assert(crate::text::spec_trim(seg[8]) != seq!['[', ']']);
    assert(crate::text::spec_trim(seg[8]) != seq!['[', '[', ']', ']']);
    lemma_scalars_stable(st8, seg[8]);
    let st9 = scan_line(st8, seg[8]);
    assert(scan_lines(st8, seg.skip(8)) == scan_lines(st9, seg.skip(9)));
    // line 20
    assert(seg.skip(9)[0] == seg[9]);
    assert(seg.skip(9).drop_first() =~= seg.skip(10));
    assert(seg[9] == ls[19]);
    assert(ls[19] == "# extra = [\"src/extra1\", \"src/extra2\"]"@);
    assert(crate::text::trim_front("# extra = [\"src/extra1\", \"src/extra2\"]"@) == "# extra = [\"src/extra1\", \"src/extra2\"]"@);
    assert(crate::text::trim_back("# extra = [\"src/extra1\", \"src/extra2\"]"@) == "# extra = [\"src/extra1\", \"src/extra2\"]"@);
    assert(crate::text::spec_trim("# extra = [\"src/extra1\", \"src/extra2\"]"@) == "# extra = [\"src/extra1\", \"src/extra2\"]"@);
    assert(crate::text::spec_trim(seg[9]) != seq!['[', ']']);
    assert(crate::text::spec_trim(seg[9]) != seq!['[', '[', ']', ']']);
    lemma_scalars_stable(st9, seg[9]);
    let st10 = scan_line(st9, seg[9]);
    assert(scan_lines(st9, seg.skip(9)) == scan_lines(st10, seg.skip(10)));
    // line 21
    assert(seg.skip(10)[0] == seg[10]);
    assert(seg.skip(10).drop_first() =~= seg.skip(11));
    assert(seg[10] == ls[20]);
    assert(ls[20] == "exclude = [\"src\", \"rust\", \".*\", \"uv.lock\", \"dist\", \"build\"]"@);
    assert(crate::text::trim_front("exclude = [\"src\", \"rust\", \".*\", \"uv.lock\", \"dist\", \"build\"]"@) == "exclude = [\"src\", \"rust\", \".*\", \"uv.lock\", \"dist\", \"build\"]"@);
    assert(crate::text::trim_back("exclude = [\"src\", \"rust\", \".*\", \"uv.lock\", \"dist\", \"build\"]"@) == "exclude = [\"src\", \"rust\", \".*\", \"uv.lock\", \"dist\", \"build\"]"@);
    assert(crate::text::spec_trim("exclude = [\"src\", \"rust\", \".*\", \"uv.lock\", \"dist\", \"build\"]"@) == "exclude = [\"src\", \"rust\", \".*\", \"uv.lock\", \"dist\", \"build\"]"@);
    assert(crate::text::spec_trim(seg[10]) != seq!['[', ']']);
    assert(crate::text::spec_trim(seg[10]) != seq!['[', '[', ']', ']']);
    lemma_scalars_stable(st10, seg[10]);
    let st11 = scan_line(st10, seg[10]);
    assert(scan_lines(st10, seg.skip(10)) == scan_lines(st11, seg.skip(11)));
    // line 22
    assert(seg.skip(11)[0] == seg[11]);
    assert(seg.skip(11).drop_first() =~= seg.skip(12));
    assert(seg[11] == ls[21]);
    assert(ls[21] == Seq::<char>::empty());
    assert(crate::text::trim_front(Seq::<char>::empty()) == Seq::<char>::empty());
    assert(crate::text::trim_back(Seq::<char>::empty()) == Seq::<char>::empty());
    assert(crate::text::spec_trim(seg[11]) == Seq::<char>::empty());
    assert(crate::text::spec_trim(seg[11]) != seq!['[', ']']);
    assert(crate::text::spec_trim(seg[11]) != seq!['[', '[', ']', ']']);
    lemma_scalars_stable(st11, seg[11]);
    let st12 = scan_line(st11, seg[11]);
    assert(scan_lines(st11, seg.skip(11)) == scan_lines(st12, seg.skip(12)));
    // line 23
    assert(seg.skip(12)[0] == seg[12]);
    assert(seg.skip(12).drop_first() =~= seg.skip(13));
    assert(seg[12] == ls[22]);
    assert(ls[22] == "[[build.prebuild]]"@);
    assert(crate::text::trim_front("[[build.prebuild]]"@) == "[[build.prebuild]]"@);
    assert(crate::text::trim_back("[[build.prebuild]]"@) == "[[build.prebuild]]"@);
    assert(crate::text::spec_trim("[[build.prebuild]]"@) == "[[build.prebuild]]"@);
    assert(crate::text::spec_trim(seg[12]) != seq!['[', ']']);
    assert(crate::text::spec_trim(seg[12]) != seq!['[', '[', ']', ']']);
    lemma_scalars_stable(st12, seg[12]);
    let st13 = scan_line(st12, seg[12]);
    assert(scan_lines(st12, seg.skip(12)) == scan_lines(st13, seg.skip(13)));
    // line 24
    assert(seg.skip(13)[0] == seg[13]);
    assert(seg.skip(13).drop_first() =~= seg.skip(14));
    assert(seg[13] == ls[23]);
    assert(ls[23] == "step1 = \"echo 'Prebuild step 1: Initializing APMM'\""@);
    assert(crate::text::trim_front("step1 = \"echo 'Prebuild step 1: Initializing APMM'\""@) == "step1 = \"echo 'Prebuild step 1: Initializing APMM'\""@);
    assert(crate::text::trim_back("step1 = \"echo 'Prebuild step 1: Initializing APMM'\""@) == "step1 = \"echo 'Prebuild step 1: Initializing APMM'\""@);
    assert(crate::text::spec_trim("step1 = \"echo 'Prebuild step 1: Initializing APMM'\""@) == "step1 = \"echo 'Prebuild step 1: Initializing APMM'\""@);
    assert(crate::text::spec_trim(seg[13]) != seq!['[', ']']);
    assert(crate::text::spec_trim(seg[13]) != seq!['[', '[', ']', ']']);
    lemma_scalars_stable(st13, seg[13]);
    let st14 = scan_line(st13, seg[13]);
    assert(scan_lines(st13, seg.skip(13)) == scan_lines(st14, seg.skip(14)));
    // line 25
    assert(seg.skip(14)[0] == seg[14]);
    assert(seg.skip(14).drop_first() =~= seg.skip(15));
    assert(seg[14] == ls[24]);
    assert(ls[24] == "[[build.prebuild]]"@);
    assert(crate::text::trim_front("[[build.prebuild]]"@) == "[[build.prebuild]]"@);
    assert(crate::text::trim_back("[[build.prebuild]]"@) == "[[build.prebuild]]"@);
    assert(crate::text::spec_trim("[[build.prebuild]]"@) == "[[build.prebuild]]"@);
    assert(crate::text::spec_trim(seg[14]) != seq!['[', ']']);
    assert(crate::text::spec_trim(seg[14]) != seq!['[', '[', ']', ']']);
    lemma_scalars_stable(st14, seg[14]);
    let st15 = scan_line(st14, seg[14]);
    assert(scan_lines(st14, seg.skip(14)) == scan_lines(st15, seg.skip(15)));
    // line 26
    assert(seg.skip(15)[0] == seg[15]);
    assert(seg.skip(15).drop_first() =~= seg.skip(16));
    assert(seg[15] == ls[25]);
    assert(ls[25] == "step2 = \"echo 'Prebuild step 2: Checking dependencies'\""@);
    assert(crate::text::trim_front("step2 = \"echo 'Prebuild step 2: Checking dependencies'\""@) == "step2 = \"echo 'Prebuild step 2: Checking dependencies'\""@);
    assert(crate::text::trim_back("step2 = \"echo 'Prebuild step 2: Checking dependencies'\""@) == "step2 = \"echo 'Prebuild step 2: Checking dependencies'\""@);
    assert(crate::text::spec_trim("step2 = \"echo 'Prebuild step 2: Checking dependencies'\""@) == "step2 = \"echo 'Prebuild step 2: Checking dependencies'\""@);
    assert(crate::text::spec_trim(seg[15]) != seq!['[', ']']);
    assert(crate::text::spec_trim(seg[15]) != seq!['[', '[', ']', ']']);
    lemma_scalars_stable(st15, seg[15]);
    let st16 = scan_line(st15, seg[15]);
    assert(scan_lines(st15, seg.skip(15)) == scan_lines(st16, seg.skip(16)));
    // line 27
    assert(seg.skip(16)[0] == seg[16]);
    assert(seg.skip(16).drop_first() =~= seg.skip(17));
    assert(seg[16] == ls[26]);
    assert(ls[26] == Seq::<char>::empty());
    assert(crate::text::trim_front(Seq::<char>::empty()) == Seq::<char>::empty());
    assert(crate::text::trim_back(Seq::<char>::empty()) == Seq::<char>::empty());
    assert(crate::text::spec_trim(seg[16]) == Seq::<char>::empty());
    assert(crate::text::spec_trim(seg[16]) != seq!['[', ']']);
    assert(crate::text::spec_trim(seg[16]) != seq!['[', '[', ']', ']']);
    lemma_scalars_stable(st16, seg[16]);
    let st17 = scan_line(st16, seg[16]);
    assert(scan_lines(st16, seg.skip(16)) == scan_lines(st17, seg.skip(17)));
    assert(seg.skip(17) =~= Seq::<Seq<char>>::empty());
    assert(scan_lines(st17, seg.skip(17)) == st17);
    assert(seg.skip(0) =~= seg);
    assert(scan_lines(st0, seg) == st17);
}

/// The remaining template lines run inside open sections and leave
/// every scalar field alone.
#[verifier::rlimit(100)]
proof fn lemma_module_prop_tail_lines(st: ScanState, id: Seq<char>, author: Seq<char>, code: int)
    requires
        st.section.len() > 0 || st.array_section.len() > 0,
    ensures
        ({
            let res = scan_lines(st, module_prop_lines(id, author, code).subrange(27int, 44int));
            &&& res.id == st.id
            &&& res.name == st.name
            &&& res.description == st.description
            &&& res.version == st.version
            &&& res.version_code == st.version_code
            &&& res.author == st.author
            &&& res.license == st.license
            &&& (res.section.len() > 0 || res.array_section.len() > 0)
        }),
{
    reveal_strlit("[[build.build]]");
    reveal_strlit("# 留空以使用apmm默认打包 如果允许完全自定义");
    reveal_strlit("[[build.postbuild]]");
    reveal_strlit("step1 = \"echo 'Postbuild step 1: cleaning up APMM build'\"");
    reveal_strlit("step2 = \"echo 'Postbuild step 2: Finalizing APMM build'\"");
    reveal_strlit("[build.system]");
    reveal_strlit("requires = [\"apmm>=0.3.0\"]");
    reveal_strlit("build-backend = \"apmm\"");
    reveal_strlit("[github]");
    reveal_strlit("# repo = \"\"");
    reveal_strlit("# path = \".\" # 这个很重要，表示模块是在仓库根目录下");
    reveal_strlit("# branch = \"main\"");
    reveal_strlit("# proxy-provider = \"https://api.akams.cn/github\"");
    let ls = module_prop_lines(id, author, code);
    let seg = ls.subrange(27int, 44int);
    let st0 = st;
    // line 28
    assert(seg.skip(0)[0] == seg[0]);
    assert(seg.skip(0).drop_first() =~= seg.skip(1));
    assert(seg[0] == ls[27]);
    assert(ls[27] == "[[build.build]]"@);
    assert(crate::text::trim_front("[[build.build]]"@) == "[[build.build]]"@);
    assert(crate::text::trim_back("[[build.build]]"@) == "[[build.build]]"@);
    assert(crate::text::spec_trim("[[build.build]]"@) == "[[build.build]]"@);
    assert(crate::text::spec_trim(seg[0]) != seq!['[', ']']);
    assert(crate::text::spec_trim(seg[0]) != seq!['[', '[', ']', ']']);
    lemma_scalars_stable(st0, seg[0]);
    let st1 = scan_line(st0, seg[0]);
    assert(scan_lines(st0, seg.skip(0)) == scan_lines(st1, seg.skip(1)));
    // line 29
    assert(seg.skip(1)[0] == seg[1]);
    assert(seg.skip(1).drop_first() =~= seg.skip(2));
    assert(seg[1] == ls[28]);
    assert(ls[28] == "# 留空以使用apmm默认打包 如果允许完全自定义"@);
    assert(crate::text::trim_front("# 留空以使用apmm默认打包 如果允许完全自定义"@) == "# 留空以使用apmm默认打包 如果允许完全自定义"@);
    assert(crate::text::trim_back("# 留空以使用apmm默认打包 如果允许完全自定义"@) == "# 留空以使用apmm默认打包 如果允许完全自定义"@);
    assert(crate::text::spec_trim("# 留空以使用apmm默认打包 如果允许完全自定义"@) == "# 留空以使用apmm默认打包 如果允许完全自定义"@);
    assert(crate::text::spec_trim(seg[1]) != seq!['[', ']']);
    assert(crate::text::spec_trim(seg[1]) != seq!['[', '[', ']', ']']);
    lemma_scalars_stable(st1, seg[1]);
    let st2 = scan_line(st1, seg[1]);
    assert(scan_lines(st1, seg.skip(1)) == scan_lines(st2, seg.skip(2)));
    // line 30
    assert(seg.skip(2)[0] == seg[2]);
    assert(seg.skip(2).drop_first() =~= seg.skip(3));
    assert(seg[2] == ls[29]);
    assert(ls[29] == Seq::<char>::empty());
    assert(crate::text::trim_front(Seq::<char>::empty()) == Seq::<char>::empty());
    assert(crate::text::trim_back(Seq::<char>::empty()) == Seq::<char>::empty());
    assert(crate::text::spec_trim(seg[2]) == Seq::<char>::empty());
    assert(crate::text::spec_trim(seg[2]) != seq!['[', ']']);
    assert(crate::text::spec_trim(seg[2]) != seq!['[', '[', ']', ']']);
    lemma_scalars_stable(st2, seg[2]);
    let st3 = scan_line(st2, seg[2]);
    assert(scan_lines(st2, seg.skip(2)) == scan_lines(st3, seg.skip(3)));
    // line 31
    assert(seg.skip(3)[0] == seg[3]);
    assert(seg.skip(3).drop_first() =~= seg.skip(4));
    assert(seg[3] == ls[30]);
    assert(ls[30] == "[[build.postbuild]]"@);
    assert(crate::text::trim_front("[[build.postbuild]]"@) == "[[build.postbuild]]"@);
    assert(crate::text::trim_back("[[build.postbuild]]"@) == "[[build.postbuild]]"@);
    assert(crate::text::spec_trim("[[build.postbuild]]"@) == "[[build.postbuild]]"@);
    assert(crate::text::spec_trim(seg[3]) != seq!['[', ']']);
    assert(crate::text::spec_trim(seg[3]) != seq!['[', '[', ']', ']']);
    lemma_scalars_stable(st3, seg[3]);
    let st4 = scan_line(st3, seg[3]);
    assert(scan_lines(st3, seg.skip(3)) == scan_lines(st4, seg.skip(4)));
    // line 32
    assert(seg.skip(4)[0] == seg[4]);
    assert(seg.skip(4).drop_first() =~= seg.skip(5));
    assert(seg[4] == ls[31]);
    assert(ls[31] == "step1 = \"echo 'Postbuild step 1: cleaning up APMM build'\""@);
    assert(crate::text::trim_front("step1 = \"echo 'Postbuild step 1: cleaning up APMM build'\""@) == "step1 = \"echo 'Postbuild step 1: cleaning up APMM build'\""@);
    assert(crate::text::trim_back("step1 = \"echo 'Postbuild step 1: cleaning up APMM build'\""@) == "step1 = \"echo 'Postbuild step 1: cleaning up APMM build'\""@);
    assert(crate::text::spec_trim("step1 = \"echo 'Postbuild step 1: cleaning up APMM build'\""@) == "step1 = \"echo 'Postbuild step 1: cleaning up APMM build'\""@);
    assert(crate::text::spec_trim(seg[4]) != seq!['[', ']']);
    assert(crate::text::spec_trim(seg[4]) != seq!['[', '[', ']', ']']);
    lemma_scalars_stable(st4, seg[4]);
    let st5 = scan_line(st4, seg[4]);
    assert(scan_lines(st4, seg.skip(4)) == scan_lines(st5, seg.skip(5)));
    // line 33
    assert(seg.skip(5)[0] == seg[5]);
    assert(seg.skip(5).drop_first() =~= seg.skip(6));
    assert(seg[5] == ls[32]);
    assert(ls[32] == "[[build.postbuild]]"@);
    assert(crate::text::trim_front("[[build.postbuild]]"@) == "[[build.postbuild]]"@);
    assert(crate::text::trim_back("[[build.postbuild]]"@) == "[[build.postbuild]]"@);
    assert(crate::text::spec_trim("[[build.postbuild]]"@) == "[[build.postbuild]]"@);
    assert(crate::text::spec_trim(seg[5]) != seq!['[', ']']);
    assert(crate::text::spec_trim(seg[5]) != seq!['[', '[', ']', ']']);
    lemma_scalars_stable(st5, seg[5]);
    let st6 = scan_line(st5, seg[5]);
    assert(scan_lines(st5, seg.skip(5)) == scan_lines(st6, seg.skip(6)));
    // line 34
    assert(seg.skip(6)[0] == seg[6]);
    assert(seg.skip(6).drop_first() =~= seg.skip(7));
    assert(seg[6] == ls[33]);
    assert(ls[33] == "step2 = \"echo 'Postbuild step 2: Finalizing APMM build'\""@);
    assert(crate::text::trim_front("step2 = \"echo 'Postbuild step 2: Finalizing APMM build'\""@) == "step2 = \"echo 'Postbuild step 2: Finalizing APMM build'\""@);
    assert(crate::text::trim_back("step2 = \"echo 'Postbuild step 2: Finalizing APMM build'\""@) == "step2 = \"echo 'Postbuild step 2: Finalizing APMM build'\""@);
    assert(crate::text::spec_trim("step2 = \"echo 'Postbuild step 2: Finalizing APMM build'\""@) == "step2 = \"echo 'Postbuild step 2: Finalizing APMM build'\""@);
    assert(crate::text::spec_trim(seg[6]) != seq!['[', ']']);
    assert(crate::text::spec_trim(seg[6]) != seq!['[', '[', ']', ']']);
    lemma_scalars_stable(st6, seg[6]);
    let st7 = scan_line(st6, seg[6]);
    assert(scan_lines(st6, seg.skip(6)) == scan_lines(st7, seg.skip(7)));
    // line 35
    assert(seg.skip(7)[0] == seg[7]);
    assert(seg.skip(7).drop_first() =~= seg.skip(8));
    assert(seg[7] == ls[34]);
    assert(ls[34] == Seq::<char>::empty());
    assert(crate::text::trim_front(Seq::<char>::empty()) == Seq::<char>::empty());
    assert(crate::text::trim_back(Seq::<char>::empty()) == Seq::<char>::empty());
    assert(crate::text::spec_trim(seg[7]) == Seq::<char>::empty());
    assert(crate::text::spec_trim(seg[7]) != seq!['[', ']']);
    assert(crate::text::spec_trim(seg[7]) != seq!['[', '[', ']', ']']);
    lemma_scalars_stable(st7, seg[7]);
    let st8 = scan_line(st7, seg[7]);
    assert(scan_lines(st7, seg.skip(7)) == scan_lines(st8, seg.skip(8)));
    // line 36
    assert(seg.skip(8)[0] == seg[8]);
    assert(seg.skip(8).drop_first() =~= seg.skip(9));
    assert(seg[8] == ls[35]);
    assert(ls[35] == "[build.system]"@);
    assert(crate::text::trim_front("[build.system]"@) == "[build.system]"@);
    assert(crate::text::trim_back("[build.system]"@) == "[build.system]"@);
    assert(crate::text::spec_trim("[build.system]"@) == "[build.system]"@);
    assert(crate::text::spec_trim(seg[8]) != seq!['[', ']']);
    assert(crate::text::spec_trim(seg[8]) != seq!['[', '[', ']', ']']);
    lemma_scalars_stable(st8, seg[8]);
    let st9 = scan_line(st8, seg[8]);
    assert(scan_lines(st8, seg.skip(8)) == scan_lines(st9, seg.skip(9)));
    // line 37
    assert(seg.skip(9)[0] == seg[9]);
    assert(seg.skip(9).drop_first() =~= seg.skip(10));
    assert(seg[9] == ls[36]);
    assert(ls[36] == "requires = [\"apmm>=0.3.0\"]"@);
    assert(crate::text::trim_front("requires = [\"apmm>=0.3.0\"]"@) == "requires = [\"apmm>=0.3.0\"]"@);
    assert(crate::text::trim_back("requires = [\"apmm>=0.3.0\"]"@) == "requires = [\"apmm>=0.3.0\"]"@);
    assert(crate::text::spec_trim("requires = [\"apmm>=0.3.0\"]"@) == "requires = [\"apmm>=0.3.0\"]"@);
    assert(crate::text::spec_trim(seg[9]) != seq!['[', ']']);
    assert(crate::text::spec_trim(seg[9]) != seq!['[', '[', ']', ']']);
    lemma_scalars_stable(st9, seg[9]);
    let st10 = scan_line(st9, seg[9]);
    assert(scan_lines(st9, seg.skip(9)) == scan_lines(st10, seg.skip(10)));
    // line 38
    assert(seg.skip(10)[0] == seg[10]);
    assert(seg.skip(10).drop_first() =~= seg.skip(11));
    assert(seg[10] == ls[37]);
    assert(ls[37] == "build-backend = \"apmm\""@);
    assert(crate::text::trim_front("build-backend = \"apmm\""@) == "build-backend = \"apmm\""@);
    assert(crate::text::trim_back("build-backend = \"apmm\""@) == "build-backend = \"apmm\""@);
    assert(crate::text::spec_trim("build-backend = \"apmm\""@) == "build-backend = \"apmm\""@);
    assert(crate::text::spec_trim(seg[10]) != seq!['[', ']']);
    assert(crate::text::spec_trim(seg[10]) != seq!['[', '[', ']', ']']);
    lemma_scalars_stable(st10, seg[10]);
    let st11 = scan_line(st10, seg[10]);
    assert(scan_lines(st10, seg.skip(10)) == scan_lines(st11, seg.skip(11)));
    // line 39
    assert(seg.skip(11)[0] == seg[11]);
    assert(seg.skip(11).drop_first() =~= seg.skip(12));
    assert(seg[11] == ls[38]);
    assert(ls[38] == Seq::<char>::empty());
    assert(crate::text::trim_front(Seq::<char>::empty()) == Seq::<char>::empty());
    assert(crate::text::trim_back(Seq::<char>::empty()) == Seq::<char>::empty());
    assert(crate::text::spec_trim(seg[11]) == Seq::<char>::empty());
    assert(crate::text::spec_trim(seg[11]) != seq!['[', ']']);
    assert(crate::text::spec_trim(seg[11]) != seq!['[', '[', ']', ']']);
    lemma_scalars_stable(st11, seg[11]);
    let st12 = scan_line(st11, seg[11]);
    assert(scan_lines(st11, seg.skip(11)) == scan_lines(st12, seg.skip(12)));
    // line 40
    assert(seg.skip(12)[0] == seg[12]);
    assert(seg.skip(12).drop_first() =~= seg.skip(13));
    assert(seg[12] == ls[39]);
    assert(ls[39] == "[github]"@);
    assert(crate::text::trim_front("[github]"@) == "[github]"@);
    assert(crate::text::trim_back("[github]"@) == "[github]"@);
    assert(crate::text::spec_trim("[github]"@) == "[github]"@);
    assert(crate::text::spec_trim(seg[12]) != seq!['[', ']']);
    assert(crate::text::spec_trim(seg[12]) != seq!['[', '[', ']', ']']);
    lemma_scalars_stable(st12, seg[12]);
    let st13 = scan_line(st12, seg[12]);
    assert(scan_lines(st12, seg.skip(12)) == scan_lines(st13, seg.skip(13)));
    // line 41
    assert(seg.skip(13)[0] == seg[13]);
    assert(seg.skip(13).drop_first() =~= seg.skip(14));
    assert(seg[13] == ls[40]);
    assert(ls[40] == "# repo = \"\""@);
    assert(crate::text::trim_front("# repo = \"\""@) == "# repo = \"\""@);
    assert(crate::text::trim_back("# repo = \"\""@) == "# repo = \"\""@);
    assert(crate::text::spec_trim("# repo = \"\""@) == "# repo = \"\""@);
    assert(crate::text::spec_trim(seg[13]) != seq!['[', ']']);
    assert(crate::text::spec_trim(seg[13]) != seq!['[', '[', ']', ']']);
    lemma_scalars_stable(st13, seg[13]);
    let st14 = scan_line(st13, seg[13]);
    assert(scan_lines(st13, seg.skip(13)) == scan_lines(st14, seg.skip(14)));
    // line 42
    assert(seg.skip(14)[0] == seg[14]);
    assert(seg.skip(14).drop_first() =~= seg.skip(15));
    assert(seg[14] == ls[41]);
    assert(ls[41] == "# path = \".\" # 这个很重要，表示模块是在仓库根目录下"@);
    assert(crate::text::trim_front("# path = \".\" # 这个很重要，表示模块是在仓库根目录下"@) == "# path = \".\" # 这个很重要，表示模块是在仓库根目录下"@);
    assert(crate::text::trim_back("# path = \".\" # 这个很重要，表示模块是在仓库根目录下"@) == "# path = \".\" # 这个很重要，表示模块是在仓库根目录下"@);
    assert(crate::text::spec_trim("# path = \".\" # 这个很重要，表示模块是在仓库根目录下"@) == "# path = \".\" # 这个很重要，表示模块是在仓库根目录下"@);
    assert(crate::text::spec_trim(seg[14]) != seq!['[', ']']);
    assert(crate::text::spec_trim(seg[14]) != seq!['[', '[', ']', ']']);
    lemma_scalars_stable(st14, seg[14]);
    let st15 = scan_line(st14, seg[14]);
    assert(scan_lines(st14, seg.skip(14)) == scan_lines(st15, seg.skip(15)));
    // line 43
    assert(seg.skip(15)[0] == seg[15]);
    assert(seg.skip(15).drop_first() =~= seg.skip(16));
    assert(seg[15] == ls[42]);
    assert(ls[42] == "# branch = \"main\""@);
    assert(crate::text::trim_front("# branch = \"main\""@) == "# branch = \"main\""@);
    assert(crate::text::trim_back("# branch = \"main\""@) == "# branch = \"main\""@);
    assert(crate::text::spec_trim("# branch = \"main\""@) == "# branch = \"main\""@);
    assert(crate::text::spec_trim(seg[15]) != seq!['[', ']']);
    assert(crate::text::spec_trim(seg[15]) != seq!['[', '[', ']', ']']);
    lemma_scalars_stable(st15, seg[15]);
    let st16 = scan_line(st15, seg[15]);
    assert(scan_lines(st15, seg.skip(15)) == scan_lines(st16, seg.skip(16)));
    // line 44
    assert(seg.skip(16)[0] == seg[16]);
    assert(seg.skip(16).drop_first() =~= seg.skip(17));
    assert(seg[16] == ls[43]);
    assert(ls[43] == "# proxy-provider = \"https://api.akams.cn/github\""@);
    assert(crate::text::trim_front("# proxy-provider = \"https://api.akams.cn/github\""@) == "# proxy-provider = \"https://api.akams.cn/github\""@);
    assert(crate::text::trim_back("# proxy-provider = \"https://api.akams.cn/github\""@) == "# proxy-provider = \"https://api.akams.cn/github\""@);
    assert(crate::text::spec_trim("# proxy-provider = \"https://api.akams.cn/github\""@) == "# proxy-provider = \"https://api.akams.cn/github\""@);
    assert(crate::text::spec_trim(seg[16]) != seq!['[', ']']);
    assert(crate::text::spec_trim(seg[16]) != seq!['[', '[', ']', ']']);
    lemma_scalars_stable(st16, seg[16]);
    let st17 = scan_line(st16, seg[16]);
    assert(scan_lines(st16, seg.skip(16)) == scan_lines(st17, seg.skip(17)));
    assert(seg.skip(17) =~= Seq::<Seq<char>>::empty());
    assert(scan_lines(st17, seg.skip(17)) == st17);
    assert(seg.skip(0) =~= seg);
    assert(scan_lines(st0, seg) == st17);
}

/// Parsing the manifest the template provider emits for a fresh project
/// recovers exactly the scalar fields that were put in: the identifier as
/// both id and name, the fixed description, the initial version, the
/// version code, the author and the license.
#[verifier::rlimit(100)]
pub proof fn lemma_module_prop_roundtrip(id: Seq<char>, author: Seq<char>, code: int)
    requires
        crate::text::nl_free(id),
        crate::text::nl_free(author),
        i64::MIN <= code <= i64::MAX,
    ensures
        parse_manifest(module_prop_text(id, author, code)).id == id,
        parse_manifest(module_prop_text(id, author, code)).name == id,
        parse_manifest(module_prop_text(id, author, code)).description == "APMM (Android Patch Module Manager)"@,
        parse_manifest(module_prop_text(id, author, code)).version == "v0.1.0"@,
        parse_manifest(module_prop_text(id, author, code)).version_code == code,
        parse_manifest(module_prop_text(id, author, code)).author == author,
        parse_manifest(module_prop_text(id, author, code)).license == "MIT"@,
{
    reveal_strlit("script");
    let ls = module_prop_lines(id, author, code);
    let text = module_prop_text(id, author, code);
    lemma_module_prop_lines_nl_free(id, author, code);
    lemma_scan_join(init_scan_state(), ls);
    assert(scan_lines(init_scan_state(), split_on(text, '\n')) == scan_lines(
        init_scan_state(),
        ls,
    ));
    assert(ls.subrange(0, 10) + ls.subrange(10, 27) =~= ls.subrange(0, 27));
    assert(ls.subrange(0, 27) + ls.subrange(27, 44) =~= ls);
    lemma_scan_lines_concat(
        init_scan_state(),
        ls.subrange(0, 27),
        ls.subrange(27, 44),
    );
    lemma_scan_lines_concat(
        init_scan_state(),
        ls.subrange(0, 10),
        ls.subrange(10, 27),
    );
    assert(scan_lines(init_scan_state(), ls.subrange(0, 27)) == scan_lines(
        scan_lines(init_scan_state(), ls.subrange(0, 10)),
        ls.subrange(10, 27),
    ));
    lemma_module_prop_head(id, author, code);
    let st_head = scan_lines(init_scan_state(), ls.subrange(0, 10));
    assert(st_head.section.len() > 0 || st_head.array_section.len() > 0);
    lemma_module_prop_mid_lines(st_head, id, author, code);
    let st_mid = scan_lines(st_head, ls.subrange(10, 27));
    lemma_module_prop_tail_lines(st_mid, id, author, code);
    let st_end = scan_lines(st_mid, ls.subrange(27, 44));
    assert(st_end.id == Some(id));
    assert(st_end.name == Some(id));
    assert(st_end.description == Some("APMM (Android Patch Module Manager)"@));
    assert(st_end.version == Some("v0.1.0"@));
    assert(st_end.version_code == Some(crate::num::dec_i64(code)));
    assert(st_end.author == Some(author));
    assert(st_end.license == Some("MIT"@));
    crate::num::lemma_parse_dec_i64_roundtrip(code);
    assert(parse_manifest(text) == finalize_scan(st_end));
}

/// The early-boot blocking script.
pub fn generate_post_fs_data_sh(module_id: &str) -> (r: String)
    ensures
        r@ == "#!/system/bin/sh\n# APMM Module: "@
            + module_id@
            + "\n# 这个阶段是阻塞的。在执行完成之前或者 10 秒钟之后，启动过程会暂停。\n# 脚本在任何模块被挂载之前运行。这使得模块开发者可以在模块被挂载之前动态地调整它们的模块。\n# 这个阶段发生在 Zygote 启动之前。\n# 使用 setprop 会导致启动过程死锁！请使用 resetprop -n <prop_name> <prop_value> 代替。\n# 只有在必要时才在此模式下运行脚本。\n\n# 模块路径\nMODDIR=\"${0%/*}\"\n\n# 建议不要使用本脚本，除非你知道你在干什么\n"@,
{
    let mut s = "#!/system/bin/sh\n# APMM Module: ".to_owned();
    s.append(module_id);
    s.append("\n# 这个阶段是阻塞的。在执行完成之前或者 10 秒钟之后，启动过程会暂停。\n# 脚本在任何模块被挂载之前运行。这使得模块开发者可以在模块被挂载之前动态地调整它们的模块。\n# 这个阶段发生在 Zygote 启动之前。\n# 使用 setprop 会导致启动过程死锁！请使用 resetprop -n <prop_name> <prop_value> 代替。\n# 只有在必要时才在此模式下运行脚本。\n\n# 模块路径\nMODDIR=\"${0%/*}\"\n\n# 建议不要使用本脚本，除非你知道你在干什么\n");
    proof {
        assert(s@ =~= "#!/system/bin/sh\n# APMM Module: "@
            + module_id@
            + "\n# 这个阶段是阻塞的。在执行完成之前或者 10 秒钟之后，启动过程会暂停。\n# 脚本在任何模块被挂载之前运行。这使得模块开发者可以在模块被挂载之前动态地调整它们的模块。\n# 这个阶段发生在 Zygote 启动之前。\n# 使用 setprop 会导致启动过程死锁！请使用 resetprop -n <prop_name> <prop_value> 代替。\n# 只有在必要时才在此模式下运行脚本。\n\n# 模块路径\nMODDIR=\"${0%/*}\"\n\n# 建议不要使用本脚本，除非你知道你在干什么\n"@);
    }
    s
}

/// The script run after the mount namespace exists.
pub fn generate_post_mount_sh() -> (r: String)
    ensures
        r@ == "#!/system/bin/sh\n# 以 post-mount 模式运行\n"@,
{
    "#!/system/bin/sh\n# 以 post-mount 模式运行\n".to_owned()
}

/// The project README, naming the module and its author.
pub fn generate_readme_md(module_id: &str, author: &str) -> (r: String)
    ensures
        r@ == "# "@
            + module_id@
            + "\n\n使用 APMM (Android Package Module Manager) 创建的 APM(Android Patch Module)\n\n## 描述\n\nlove from APMM ❤️\n\n## 功能特性\n\n请在此处描述您的模块功能\n\n## 使用方法\n\n请在此处描述如何使用您的模块\n\n## 开发贡献\n\n此模块使用 APMM 创建。要贡献代码：\n\n1. 克隆此仓库\n2. 进行修改\n3. 在不同设备上充分测试\n4. 提交 Pull Request\n\n### 构建\n\n```bash\n# 构建模块\napmm build\n\n# 同步 && 刷新\napmm sync\n\n# 版本控制\napmm sync -U \n(更新模块版本）\n\n# 运行组合操作(module.prop定义内容)\napmm run <script_name>\n```\n\n## 许可证\n\n本项目使用 MIT 许可证 - 详见 [LICENSE](LICENSE) 文件。\n\n## 致谢\n\n- 感谢 Magisk/Kernelsu/Apatch\n- 感谢 [APMM](https://github.com/APMMDEVS/apmm) 团队提供的工具和支持\n\n## 支持\n\n如果您遇到任何问题或有疑问：\n- 在 [GitHub Issues](https://github.com/APMMDEVS/apmm/issues) 中提交问题\n- 加入我们的社区讨论\n\n## 免责声明\n\nAPMM 不对生成的模块负责\n\n## 作者\n\n作者: "@
            + author@
            + "\n\n## 参考链接\n\n- [KERNELSU 模块开发指南](https://kernelsu.org/zh_CN/guide/module.html)\n- [Magisk 模块开发指南](https://topjohnwu.github.io/Magisk/guides.html)\n- [APMM 文档](https://github.com/apmm/apmm)\n"@,
{
    let mut s = "# ".to_owned();
    s.append(module_id);
    s.append("\n\n使用 APMM (Android Package Module Manager) 创建的 APM(Android Patch Module)\n\n## 描述\n\nlove from APMM ❤️\n\n## 功能特性\n\n请在此处描述您的模块功能\n\n## 使用方法\n\n请在此处描述如何使用您的模块\n\n## 开发贡献\n\n此模块使用 APMM 创建。要贡献代码：\n\n1. 克隆此仓库\n2. 进行修改\n3. 在不同设备上充分测试\n4. 提交 Pull Request\n\n### 构建\n\n```bash\n# 构建模块\napmm build\n\n# 同步 && 刷新\napmm sync\n\n# 版本控制\napmm sync -U \n(更新模块版本）\n\n# 运行组合操作(module.prop定义内容)\napmm run <script_name>\n```\n\n## 许可证\n\n本项目使用 MIT 许可证 - 详见 [LICENSE](LICENSE) 文件。\n\n## 致谢\n\n- 感谢 Magisk/Kernelsu/Apatch\n- 感谢 [APMM](https://github.com/APMMDEVS/apmm) 团队提供的工具和支持\n\n## 支持\n\n如果您遇到任何问题或有疑问：\n- 在 [GitHub Issues](https://github.com/APMMDEVS/apmm/issues) 中提交问题\n- 加入我们的社区讨论\n\n## 免责声明\n\nAPMM 不对生成的模块负责\n\n## 作者\n\n作者: ");
    s.append(author);
    s.append("\n\n## 参考链接\n\n- [KERNELSU 模块开发指南](https://kernelsu.org/zh_CN/guide/module.html)\n- [Magisk 模块开发指南](https://topjohnwu.github.io/Magisk/guides.html)\n- [APMM 文档](https://github.com/apmm/apmm)\n");
    proof {
        assert(s@ =~= "# "@
            + module_id@
            + "\n\n使用 APMM (Android Package Module Manager) 创建的 APM(Android Patch Module)\n\n## 描述\n\nlove from APMM ❤️\n\n## 功能特性\n\n请在此处描述您的模块功能\n\n## 使用方法\n\n请在此处描述如何使用您的模块\n\n## 开发贡献\n\n此模块使用 APMM 创建。要贡献代码：\n\n1. 克隆此仓库\n2. 进行修改\n3. 在不同设备上充分测试\n4. 提交 Pull Request\n\n### 构建\n\n```bash\n# 构建模块\napmm build\n\n# 同步 && 刷新\napmm sync\n\n# 版本控制\napmm sync -U \n(更新模块版本）\n\n# 运行组合操作(module.prop定义内容)\napmm run <script_name>\n```\n\n## 许可证\n\n本项目使用 MIT 许可证 - 详见 [LICENSE](LICENSE) 文件。\n\n## 致谢\n\n- 感谢 Magisk/Kernelsu/Apatch\n- 感谢 [APMM](https://github.com/APMMDEVS/apmm) 团队提供的工具和支持\n\n## 支持\n\n如果您遇到任何问题或有疑问：\n- 在 [GitHub Issues](https://github.com/APMMDEVS/apmm/issues) 中提交问题\n- 加入我们的社区讨论\n\n## 免责声明\n\nAPMM 不对生成的模块负责\n\n## 作者\n\n作者: "@
            + author@
            + "\n\n## 参考链接\n\n- [KERNELSU 模块开发指南](https://kernelsu.org/zh_CN/guide/module.html)\n- [Magisk 模块开发指南](https://topjohnwu.github.io/Magisk/guides.html)\n- [APMM 文档](https://github.com/apmm/apmm)\n"@);
    }
    s
}

/// The SELinux policy rules template.
pub fn generate_sepolicy_rule() -> (r: String)
    ensures
        r@ == "# SELinux policy rules for this Magisk module\n# More info at https://topjohnwu.github.io/Magisk/guides.html\n\n# Example rules (uncomment and modify as needed):\n# allow untrusted_app system_file:file { read open };\n# allow system_app system_file:file { write };\n# permissive my_domain;\n\n# Common rules for Magisk modules:\n# allow { domain } { domain }:{ class } { permissions };\n\n# Your custom SELinux rules here\n"@,
{
    "# SELinux policy rules for this Magisk module\n# More info at https://topjohnwu.github.io/Magisk/guides.html\n\n# Example rules (uncomment and modify as needed):\n# allow untrusted_app system_file:file { read open };\n# allow system_app system_file:file { write };\n# permissive my_domain;\n\n# Common rules for Magisk modules:\n# allow { domain } { domain }:{ class } { permissions };\n\n# Your custom SELinux rules here\n".to_owned()
}

/// The boot service script: runs in late-start service mode.
pub fn generate_service_sh() -> (r: String)
    ensures
        r@ == "#!/system/bin/sh\n# 则以 late_start 服务模式运行\n"@,
{
    "#!/system/bin/sh\n# 则以 late_start 服务模式运行\n".to_owned()
}

/// The system properties template.
pub fn generate_system_prop() -> (r: String)
    ensures
        r@ == "# System properties for this Magisk module\n# More info at https://topjohnwu.github.io/Magisk/guides.html\n\n# Example properties (uncomment and modify as needed):\n# ro.my.module.version=1.0\n# persist.my.module.enabled=true\n# debug.my.module.log=false\n\n# Common system properties:\n# ro.build.fingerprint=custom\n# ro.product.model=Modified Device\n# persist.vendor.camera.privapp.list=*\n\n# Your custom properties here\n"@,
{
    "# System properties for this Magisk module\n# More info at https://topjohnwu.github.io/Magisk/guides.html\n\n# Example properties (uncomment and modify as needed):\n# ro.my.module.version=1.0\n# persist.my.module.enabled=true\n# debug.my.module.log=false\n\n# Common system properties:\n# ro.build.fingerprint=custom\n# ro.product.model=Modified Device\n# persist.vendor.camera.privapp.list=*\n\n# Your custom properties here\n".to_owned()
}

/// The uninstallation script, logging the removal of the module.
pub fn generate_uninstall_sh(module_id: &str) -> (r: String)
    ensures
        r@ == "#!/system/bin/sh\n\n# APMM Module: "@
            + module_id@
            + "\n# This script will be executed during module uninstallation\n\n# Log file\nLOG_FILE=\"/data/adb/modules/"@
            + module_id@
            + "/uninstall.log\"\n\n# Ensure log directory exists\nmkdir -p \"$(dirname \"$LOG_FILE\")\"\n\n# Log start\necho \"$(date): Uninstalling module "@
            + module_id@
            + "\" > \"$LOG_FILE\"\n\n# Add your cleanup logic here\n# Example:\n# rm -rf /data/local/tmp/"@
            + module_id@
            + "\n# echo \"$(date): Cleaned up temporary files\" >> \"$LOG_FILE\"\n\n# Log completion\necho \"$(date): Module "@
            + module_id@
            + " uninstalled successfully\" >> \"$LOG_FILE\"\n\nui_print \"Module "@
            + module_id@
            + " uninstalled successfully!\"\n"@,
{
    let mut s = "#!/system/bin/sh\n\n# APMM Module: ".to_owned();
    s.append(module_id);
    s.append("\n# This script will be executed during module uninstallation\n\n# Log file\nLOG_FILE=\"/data/adb/modules/");
    s.append(module_id);
    s.append("/uninstall.log\"\n\n# Ensure log directory exists\nmkdir -p \"$(dirname \"$LOG_FILE\")\"\n\n# Log start\necho \"$(date): Uninstalling module ");
    s.append(module_id);
    s.append("\" > \"$LOG_FILE\"\n\n# Add your cleanup logic here\n# Example:\n# rm -rf /data/local/tmp/");
    s.append(module_id);
    s.append("\n# echo \"$(date): Cleaned up temporary files\" >> \"$LOG_FILE\"\n\n# Log completion\necho \"$(date): Module ");
    s.append(module_id);
    s.append(" uninstalled successfully\" >> \"$LOG_FILE\"\n\nui_print \"Module ");
    s.append(module_id);
    s.append(" uninstalled successfully!\"\n");
    proof {
        assert(s@ =~= "#!/system/bin/sh\n\n# APMM Module: "@
            + module_id@
            + "\n# This script will be executed during module uninstallation\n\n# Log file\nLOG_FILE=\"/data/adb/modules/"@
            + module_id@
            + "/uninstall.log\"\n\n# Ensure log directory exists\nmkdir -p \"$(dirname \"$LOG_FILE\")\"\n\n# Log start\necho \"$(date): Uninstalling module "@
            + module_id@
            + "\" > \"$LOG_FILE\"\n\n# Add your cleanup logic here\n# Example:\n# rm -rf /data/local/tmp/"@
            + module_id@
            + "\n# echo \"$(date): Cleaned up temporary files\" >> \"$LOG_FILE\"\n\n# Log completion\necho \"$(date): Module "@
            + module_id@
            + " uninstalled successfully\" >> \"$LOG_FILE\"\n\nui_print \"Module "@
            + module_id@
            + " uninstalled successfully!\"\n"@);
    }
    s
}

/// The web control panel page for the module.
pub fn generate_index_html(module_id: &str) -> (r: String)
    ensures
        r@ == "<!DOCTYPE html>\n<html lang=\"zh-CN\">\n<head>\n    <meta charset=\"UTF-8\">\n    <meta name=\"viewport\" content=\"width=device-width, initial-scale=1.0\">\n    <title>"@
            + module_id@
            + " 模块控制面板</title>\n    <style>\n        * {\n            margin: 0;\n            padding: 0;\n            box-sizing: border-box;\n        }\n\n        body {\n            font-family: -apple-system, BlinkMacSystemFont, 'Segoe UI', Roboto, sans-serif;\n            background: linear-gradient(135deg, #667eea 0%, #764ba2 100%);\n            min-height: 100vh;\n            padding: 20px;\n            color: #333;\n        }\n\n        .container {\n            max-width: 800px;\n            margin: 0 auto;\n            background: rgba(255, 255, 255, 0.95);\n            border-radius: 15px;\n            box-shadow: 0 20px 40px rgba(0, 0, 0, 0.1);\n            overflow: hidden;\n            backdrop-filter: blur(10px);\n        }\n\n        .header {\n            background: linear-gradient(135deg, #4a9eff 0%, #3d8bfd 100%);\n            color: white;\n            padding: 30px;\n            text-align: center;\n        }\n\n        .header h1 {\n            font-size: 2rem;\n            margin-bottom: 10px;\n            font-weight: 300;\n        }\n\n        .header p {\n            opacity: 0.9;\n        }\n\n        .content {\n            padding: 30px;\n        }\n\n        .section {\n            margin-bottom: 30px;\n        }\n\n        .section h2 {\n            color: #4a9eff;\n            font-size: 1.3rem;\n            margin-bottom: 15px;\n            border-bottom: 2px solid #4a9eff;\n            padding-bottom: 8px;\n        }\n\n        .status-card {\n            display: flex;\n            align-items: center;\n            gap: 15px;\n            padding: 20px;\n            background: #f8f9fa;\n            border-radius: 10px;\n            border: 1px solid #e9ecef;\n            margin-bottom: 20px;\n        }\n\n        .status-indicator {\n            width: 20px;\n            height: 20px;\n            border-radius: 50%;\n            background: #28a745;\n            box-shadow: 0 0 0 3px rgba(40, 167, 69, 0.3);\n            animation: pulse 2s infinite;\n        }\n\n        @keyframes pulse {\n            0% { box-shadow: 0 0 0 0 rgba(40, 167, 69, 0.7); }\n            70% { box-shadow: 0 0 0 10px rgba(40, 167, 69, 0); }\n            100% { box-shadow: 0 0 0 0 rgba(40, 167, 69, 0); }\n        }\n\n        .info-grid {\n            display: grid;\n            grid-template-columns: repeat(auto-fit, minmax(250px, 1fr));\n            gap: 15px;\n        }\n\n        .info-item {\n            padding: 15px;\n            background: #f8f9fa;\n            border-radius: 8px;\n            border: 1px solid #e9ecef;\n        }\n\n        .info-item strong {\n            color: #495057;\n            display: block;\n            margin-bottom: 5px;\n        }\n\n        .info-item span {\n            color: #6c757d;\n            font-family: 'Courier New', monospace;\n        }\n\n        .actions {\n            display: grid;\n            grid-template-columns: repeat(auto-fit, minmax(200px, 1fr));\n            gap: 15px;\n        }\n\n        .btn {\n            padding: 12px 20px;\n            background: linear-gradient(135deg, #4a9eff 0%, #3d8bfd 100%);\n            color: white;\n            border: none;\n            border-radius: 8px;\n            cursor: pointer;\n            transition: all 0.3s ease;\n            font-size: 0.9rem;\n        }\n\n        .btn:hover {\n            transform: translateY(-2px);\n            box-shadow: 0 8px 25px rgba(74, 158, 255, 0.4);\n        }\n\n        .btn:active {\n            transform: translateY(0);\n        }\n\n        .log-output {\n            background: #2d3748;\n            color: #e2e8f0;\n            padding: 15px;\n            border-radius: 8px;\n            font-family: 'Courier New', monospace;\n            font-size: 0.9rem;\n            max-height: 200px;\n            overflow-y: auto;\n            white-space: pre-wrap;\n            margin-top: 15px;\n            display: none;\n        }\n\n        .footer {\n            background: #f8f9fa;\n            padding: 20px;\n            text-align: center;\n            color: #6c757d;\n            border-top: 1px solid #e9ecef;\n        }\n\n        @media (max-width: 768px) {\n            body { padding: 10px; }\n            .header { padding: 20px; }\n            .content { padding: 20px; }\n            .actions { grid-template-columns: 1fr; }\n        }\n    </style>\n</head>\n<body>\n    <div class=\"container\">\n        <div class=\"header\">\n            <h1>"@
            + module_id@
            + " 模块</h1>\n            <p>KernelSU 模块控制面板</p>\n        </div>\n        \n        <div class=\"content\">\n            <div class=\"section\">\n                <h2>📊 模块状态</h2>\n                <div class=\"status-card\">\n                    <div class=\"status-indicator\" id=\"statusIndicator\"></div>\n                    <span id=\"statusText\">模块运行中</span>\n                </div>\n            </div>\n            \n            <div class=\"section\">\n                <h2>ℹ️ 模块信息</h2>\n                <div class=\"info-grid\">\n                    <div class=\"info-item\">\n                        <strong>模块ID:</strong>\n                        <span>"@
            + module_id@
            + "</span>\n                    </div>\n                    <div class=\"info-item\">\n                        <strong>版本:</strong>\n                        <span>v0.1.0</span>\n                    </div>\n                    <div class=\"info-item\">\n                        <strong>作者:</strong>\n                        <span>APMM Team</span>\n                    </div>\n                    <div class=\"info-item\">\n                        <strong>创建工具:</strong>\n                        <span>APMM</span>\n                    </div>\n                </div>\n            </div>\n            \n            <div class=\"section\">\n                <h2>🔧 操作</h2>\n                <div class=\"actions\">\n                    <button class=\"btn\" onclick=\"refreshStatus()\">🔄 刷新状态</button>\n                    <button class=\"btn\" onclick=\"viewSystemInfo()\">📋 系统信息</button>\n                    <button class=\"btn\" onclick=\"runTest()\">🧪 运行测试</button>\n                    <button class=\"btn\" onclick=\"toggleFullScreen()\">🖥️ 全屏切换</button>\n                </div>\n                <div class=\"log-output\" id=\"logOutput\"></div>\n            </div>\n        </div>\n        \n        <div class=\"footer\">\n            <p>&copy; 2024 APMM Team. 使用 Android Package Module Manager 创建</p>\n        </div>\n    </div>\n\n    <script type=\"module\">\n        // 导入 KernelSU API\n        import { exec, toast, fullScreen } from 'kernelsu';\n\n        // 全局变量\n        let isFullScreen = false;\n\n        // 刷新状态\n        window.refreshStatus = async function() {\n            try {\n                const statusIndicator = document.getElementById('statusIndicator');\n                const statusText = document.getElementById('statusText');\n                \n                // 检查模块状态\n                const { errno, stdout } = await exec('ls /data/adb/modules/"@
            + module_id@
            + "');\n                \n                if (errno === 0) {\n                    statusIndicator.style.background = '#28a745';\n                    statusText.textContent = '模块运行中';\n                    toast('状态刷新成功');\n                } else {\n                    statusIndicator.style.background = '#dc3545';\n                    statusText.textContent = '模块未运行';\n                    toast('模块状态异常');\n                }\n            } catch (error) {\n                console.error('刷新状态失败:', error);\n                toast('刷新状态失败');\n            }\n        };\n\n        // 查看系统信息\n        window.viewSystemInfo = async function() {\n            try {\n                const logOutput = document.getElementById('logOutput');\n                logOutput.style.display = 'block';\n                \n                const commands = [\n                    'uname -a',\n                    'getprop ro.product.model',\n                    'getprop ro.build.version.release',\n                    'df -h /data'\n                ];\n                \n                let output = '=== 系统信息 ===\\\\n';\n                \n                for (const cmd of commands) {\n                    const { errno, stdout } = await exec(cmd);\n                    if (errno === 0) {\n                        output += `$ ${cmd}\\\\n${stdout}\\\\n\\\\n`;\n                    }\n                }\n                \n                logOutput.textContent = output;\n                toast('系统信息获取成功');\n            } catch (error) {\n                console.error('获取系统信息失败:', error);\n                toast('获取系统信息失败');\n            }\n        };\n\n        // 运行测试\n        window.runTest = async function() {\n            try {\n                const logOutput = document.getElementById('logOutput');\n                logOutput.style.display = 'block';\n                \n                let output = '=== "@
            + module_id@
            + " 模块测试 ===\\\\n';\n                output += `开始时间: ${new Date().toLocaleString()}\\\\n\\\\n`;\n                \n                // 测试模块目录\n                const { errno: dirErrno, stdout: dirStdout } = await exec('ls -la /data/adb/modules/"@
            + module_id@
            + "');\n                if (dirErrno === 0) {\n                    output += '✅ 模块目录存在\\\\n';\n                    output += `目录内容:\\\\n${dirStdout}\\\\n\\\\n`;\n                } else {\n                    output += '❌ 模块目录不存在\\\\n\\\\n';\n                }\n                \n                // 测试模块属性\n                const { errno: propErrno, stdout: propStdout } = await exec('cat /data/adb/modules/"@
            + module_id@
            + "/module.prop');\n                if (propErrno === 0) {\n                    output += '✅ 模块属性文件存在\\\\n';\n                    output += `属性内容:\\\\n${propStdout}\\\\n\\\\n`;\n                } else {\n                    output += '❌ 模块属性文件不存在\\\\n\\\\n';\n                }\n                \n                output += `完成时间: ${new Date().toLocaleString()}\\\\n`;\n                \n                logOutput.textContent = output;\n                toast('测试完成');\n            } catch (error) {\n                console.error('运行测试失败:', error);\n                toast('运行测试失败');\n            }\n        };\n\n        // 切换全屏\n        window.toggleFullScreen = function() {\n            try {\n                isFullScreen = !isFullScreen;\n                fullScreen(isFullScreen);\n                toast(isFullScreen ? '已进入全屏' : '已退出全屏');\n            } catch (error) {\n                console.error('切换全屏失败:', error);\n                toast('切换全屏失败');\n            }\n        };        // 页面加载完成后初始化\n        document.addEventListener('DOMContentLoaded', function() {\n            console.log('"@
            + module_id@
            + " 模块 WebUI 已加载');\n            toast('欢迎使用 "@
            + module_id@
            + " 模块');\n        });\n    </script>\n</body>\n</html>"@,
{
    let mut s = "<!DOCTYPE html>\n<html lang=\"zh-CN\">\n<head>\n    <meta charset=\"UTF-8\">\n    <meta name=\"viewport\" content=\"width=device-width, initial-scale=1.0\">\n    <title>".to_owned();
    s.append(module_id);
    s.append(" 模块控制面板</title>\n    <style>\n        * {\n            margin: 0;\n            padding: 0;\n            box-sizing: border-box;\n        }\n\n        body {\n            font-family: -apple-system, BlinkMacSystemFont, 'Segoe UI', Roboto, sans-serif;\n            background: linear-gradient(135deg, #667eea 0%, #764ba2 100%);\n            min-height: 100vh;\n            padding: 20px;\n            color: #333;\n        }\n\n        .container {\n            max-width: 800px;\n            margin: 0 auto;\n            background: rgba(255, 255, 255, 0.95);\n            border-radius: 15px;\n            box-shadow: 0 20px 40px rgba(0, 0, 0, 0.1);\n            overflow: hidden;\n            backdrop-filter: blur(10px);\n        }\n\n        .header {\n            background: linear-gradient(135deg, #4a9eff 0%, #3d8bfd 100%);\n            color: white;\n            padding: 30px;\n            text-align: center;\n        }\n\n        .header h1 {\n            font-size: 2rem;\n            margin-bottom: 10px;\n            font-weight: 300;\n        }\n\n        .header p {\n            opacity: 0.9;\n        }\n\n        .content {\n            padding: 30px;\n        }\n\n        .section {\n            margin-bottom: 30px;\n        }\n\n        .section h2 {\n            color: #4a9eff;\n            font-size: 1.3rem;\n            margin-bottom: 15px;\n            border-bottom: 2px solid #4a9eff;\n            padding-bottom: 8px;\n        }\n\n        .status-card {\n            display: flex;\n            align-items: center;\n            gap: 15px;\n            padding: 20px;\n            background: #f8f9fa;\n            border-radius: 10px;\n            border: 1px solid #e9ecef;\n            margin-bottom: 20px;\n        }\n\n        .status-indicator {\n            width: 20px;\n            height: 20px;\n            border-radius: 50%;\n            background: #28a745;\n            box-shadow: 0 0 0 3px rgba(40, 167, 69, 0.3);\n            animation: pulse 2s infinite;\n        }\n\n        @keyframes pulse {\n            0% { box-shadow: 0 0 0 0 rgba(40, 167, 69, 0.7); }\n            70% { box-shadow: 0 0 0 10px rgba(40, 167, 69, 0); }\n            100% { box-shadow: 0 0 0 0 rgba(40, 167, 69, 0); }\n        }\n\n        .info-grid {\n            display: grid;\n            grid-template-columns: repeat(auto-fit, minmax(250px, 1fr));\n            gap: 15px;\n        }\n\n        .info-item {\n            padding: 15px;\n            background: #f8f9fa;\n            border-radius: 8px;\n            border: 1px solid #e9ecef;\n        }\n\n        .info-item strong {\n            color: #495057;\n            display: block;\n            margin-bottom: 5px;\n        }\n\n        .info-item span {\n            color: #6c757d;\n            font-family: 'Courier New', monospace;\n        }\n\n        .actions {\n            display: grid;\n            grid-template-columns: repeat(auto-fit, minmax(200px, 1fr));\n            gap: 15px;\n        }\n\n        .btn {\n            padding: 12px 20px;\n            background: linear-gradient(135deg, #4a9eff 0%, #3d8bfd 100%);\n            color: white;\n            border: none;\n            border-radius: 8px;\n            cursor: pointer;\n            transition: all 0.3s ease;\n            font-size: 0.9rem;\n        }\n\n        .btn:hover {\n            transform: translateY(-2px);\n            box-shadow: 0 8px 25px rgba(74, 158, 255, 0.4);\n        }\n\n        .btn:active {\n            transform: translateY(0);\n        }\n\n        .log-output {\n            background: #2d3748;\n            color: #e2e8f0;\n            padding: 15px;\n            border-radius: 8px;\n            font-family: 'Courier New', monospace;\n            font-size: 0.9rem;\n            max-height: 200px;\n            overflow-y: auto;\n            white-space: pre-wrap;\n            margin-top: 15px;\n            display: none;\n        }\n\n        .footer {\n            background: #f8f9fa;\n            padding: 20px;\n            text-align: center;\n            color: #6c757d;\n            border-top: 1px solid #e9ecef;\n        }\n\n        @media (max-width: 768px) {\n            body { padding: 10px; }\n            .header { padding: 20px; }\n            .content { padding: 20px; }\n            .actions { grid-template-columns: 1fr; }\n        }\n    </style>\n</head>\n<body>\n    <div class=\"container\">\n        <div class=\"header\">\n            <h1>");
    s.append(module_id);
    s.append(" 模块</h1>\n            <p>KernelSU 模块控制面板</p>\n        </div>\n        \n        <div class=\"content\">\n            <div class=\"section\">\n                <h2>📊 模块状态</h2>\n                <div class=\"status-card\">\n                    <div class=\"status-indicator\" id=\"statusIndicator\"></div>\n                    <span id=\"statusText\">模块运行中</span>\n                </div>\n            </div>\n            \n            <div class=\"section\">\n                <h2>ℹ️ 模块信息</h2>\n                <div class=\"info-grid\">\n                    <div class=\"info-item\">\n                        <strong>模块ID:</strong>\n                        <span>");
    s.append(module_id);
    s.append("</span>\n                    </div>\n                    <div class=\"info-item\">\n                        <strong>版本:</strong>\n                        <span>v0.1.0</span>\n                    </div>\n                    <div class=\"info-item\">\n                        <strong>作者:</strong>\n                        <span>APMM Team</span>\n                    </div>\n                    <div class=\"info-item\">\n                        <strong>创建工具:</strong>\n                        <span>APMM</span>\n                    </div>\n                </div>\n            </div>\n            \n            <div class=\"section\">\n                <h2>🔧 操作</h2>\n                <div class=\"actions\">\n                    <button class=\"btn\" onclick=\"refreshStatus()\">🔄 刷新状态</button>\n                    <button class=\"btn\" onclick=\"viewSystemInfo()\">📋 系统信息</button>\n                    <button class=\"btn\" onclick=\"runTest()\">🧪 运行测试</button>\n                    <button class=\"btn\" onclick=\"toggleFullScreen()\">🖥️ 全屏切换</button>\n                </div>\n                <div class=\"log-output\" id=\"logOutput\"></div>\n            </div>\n        </div>\n        \n        <div class=\"footer\">\n            <p>&copy; 2024 APMM Team. 使用 Android Package Module Manager 创建</p>\n        </div>\n    </div>\n\n    <script type=\"module\">\n        // 导入 KernelSU API\n        import { exec, toast, fullScreen } from 'kernelsu';\n\n        // 全局变量\n        let isFullScreen = false;\n\n        // 刷新状态\n        window.refreshStatus = async function() {\n            try {\n                const statusIndicator = document.getElementById('statusIndicator');\n                const statusText = document.getElementById('statusText');\n                \n                // 检查模块状态\n                const { errno, stdout } = await exec('ls /data/adb/modules/");
    s.append(module_id);
    s.append("');\n                \n                if (errno === 0) {\n                    statusIndicator.style.background = '#28a745';\n                    statusText.textContent = '模块运行中';\n                    toast('状态刷新成功');\n                } else {\n                    statusIndicator.style.background = '#dc3545';\n                    statusText.textContent = '模块未运行';\n                    toast('模块状态异常');\n                }\n            } catch (error) {\n                console.error('刷新状态失败:', error);\n                toast('刷新状态失败');\n            }\n        };\n\n        // 查看系统信息\n        window.viewSystemInfo = async function() {\n            try {\n                const logOutput = document.getElementById('logOutput');\n                logOutput.style.display = 'block';\n                \n                const commands = [\n                    'uname -a',\n                    'getprop ro.product.model',\n                    'getprop ro.build.version.release',\n                    'df -h /data'\n                ];\n                \n                let output = '=== 系统信息 ===\\\\n';\n                \n                for (const cmd of commands) {\n                    const { errno, stdout } = await exec(cmd);\n                    if (errno === 0) {\n                        output += `$ ${cmd}\\\\n${stdout}\\\\n\\\\n`;\n                    }\n                }\n                \n                logOutput.textContent = output;\n                toast('系统信息获取成功');\n            } catch (error) {\n                console.error('获取系统信息失败:', error);\n                toast('获取系统信息失败');\n            }\n        };\n\n        // 运行测试\n        window.runTest = async function() {\n            try {\n                const logOutput = document.getElementById('logOutput');\n                logOutput.style.display = 'block';\n                \n                let output = '=== ");
    s.append(module_id);
    s.append(" 模块测试 ===\\\\n';\n                output += `开始时间: ${new Date().toLocaleString()}\\\\n\\\\n`;\n                \n                // 测试模块目录\n                const { errno: dirErrno, stdout: dirStdout } = await exec('ls -la /data/adb/modules/");
    s.append(module_id);
    s.append("');\n                if (dirErrno === 0) {\n                    output += '✅ 模块目录存在\\\\n';\n                    output += `目录内容:\\\\n${dirStdout}\\\\n\\\\n`;\n                } else {\n                    output += '❌ 模块目录不存在\\\\n\\\\n';\n                }\n                \n                // 测试模块属性\n                const { errno: propErrno, stdout: propStdout } = await exec('cat /data/adb/modules/");
    s.append(module_id);
    s.append("/module.prop');\n                if (propErrno === 0) {\n                    output += '✅ 模块属性文件存在\\\\n';\n                    output += `属性内容:\\\\n${propStdout}\\\\n\\\\n`;\n                } else {\n                    output += '❌ 模块属性文件不存在\\\\n\\\\n';\n                }\n                \n                output += `完成时间: ${new Date().toLocaleString()}\\\\n`;\n                \n                logOutput.textContent = output;\n                toast('测试完成');\n            } catch (error) {\n                console.error('运行测试失败:', error);\n                toast('运行测试失败');\n            }\n        };\n\n        // 切换全屏\n        window.toggleFullScreen = function() {\n            try {\n                isFullScreen = !isFullScreen;\n                fullScreen(isFullScreen);\n                toast(isFullScreen ? '已进入全屏' : '已退出全屏');\n            } catch (error) {\n                console.error('切换全屏失败:', error);\n                toast('切换全屏失败');\n            }\n        };        // 页面加载完成后初始化\n        document.addEventListener('DOMContentLoaded', function() {\n            console.log('");
    s.append(module_id);
    s.append(" 模块 WebUI 已加载');\n            toast('欢迎使用 ");
    s.append(module_id);
    s.append(" 模块');\n        });\n    </script>\n</body>\n</html>");
    proof {
        assert(s@ =~= "<!DOCTYPE html>\n<html lang=\"zh-CN\">\n<head>\n    <meta charset=\"UTF-8\">\n    <meta name=\"viewport\" content=\"width=device-width, initial-scale=1.0\">\n    <title>"@
            + module_id@
            + " 模块控制面板</title>\n    <style>\n        * {\n            margin: 0;\n            padding: 0;\n            box-sizing: border-box;\n        }\n\n        body {\n            font-family: -apple-system, BlinkMacSystemFont, 'Segoe UI', Roboto, sans-serif;\n            background: linear-gradient(135deg, #667eea 0%, #764ba2 100%);\n            min-height: 100vh;\n            padding: 20px;\n            color: #333;\n        }\n\n        .container {\n            max-width: 800px;\n            margin: 0 auto;\n            background: rgba(255, 255, 255, 0.95);\n            border-radius: 15px;\n            box-shadow: 0 20px 40px rgba(0, 0, 0, 0.1);\n            overflow: hidden;\n            backdrop-filter: blur(10px);\n        }\n\n        .header {\n            background: linear-gradient(135deg, #4a9eff 0%, #3d8bfd 100%);\n            color: white;\n            padding: 30px;\n            text-align: center;\n        }\n\n        .header h1 {\n            font-size: 2rem;\n            margin-bottom: 10px;\n            font-weight: 300;\n        }\n\n        .header p {\n            opacity: 0.9;\n        }\n\n        .content {\n            padding: 30px;\n        }\n\n        .section {\n            margin-bottom: 30px;\n        }\n\n        .section h2 {\n            color: #4a9eff;\n            font-size: 1.3rem;\n            margin-bottom: 15px;\n            border-bottom: 2px solid #4a9eff;\n            padding-bottom: 8px;\n        }\n\n        .status-card {\n            display: flex;\n            align-items: center;\n            gap: 15px;\n            padding: 20px;\n            background: #f8f9fa;\n            border-radius: 10px;\n            border: 1px solid #e9ecef;\n            margin-bottom: 20px;\n        }\n\n        .status-indicator {\n            width: 20px;\n            height: 20px;\n            border-radius: 50%;\n            background: #28a745;\n            box-shadow: 0 0 0 3px rgba(40, 167, 69, 0.3);\n            animation: pulse 2s infinite;\n        }\n\n        @keyframes pulse {\n            0% { box-shadow: 0 0 0 0 rgba(40, 167, 69, 0.7); }\n            70% { box-shadow: 0 0 0 10px rgba(40, 167, 69, 0); }\n            100% { box-shadow: 0 0 0 0 rgba(40, 167, 69, 0); }\n        }\n\n        .info-grid {\n            display: grid;\n            grid-template-columns: repeat(auto-fit, minmax(250px, 1fr));\n            gap: 15px;\n        }\n\n        .info-item {\n            padding: 15px;\n            background: #f8f9fa;\n            border-radius: 8px;\n            border: 1px solid #e9ecef;\n        }\n\n        .info-item strong {\n            color: #495057;\n            display: block;\n            margin-bottom: 5px;\n        }\n\n        .info-item span {\n            color: #6c757d;\n            font-family: 'Courier New', monospace;\n        }\n\n        .actions {\n            display: grid;\n            grid-template-columns: repeat(auto-fit, minmax(200px, 1fr));\n            gap: 15px;\n        }\n\n        .btn {\n            padding: 12px 20px;\n            background: linear-gradient(135deg, #4a9eff 0%, #3d8bfd 100%);\n            color: white;\n            border: none;\n            border-radius: 8px;\n            cursor: pointer;\n            transition: all 0.3s ease;\n            font-size: 0.9rem;\n        }\n\n        .btn:hover {\n            transform: translateY(-2px);\n            box-shadow: 0 8px 25px rgba(74, 158, 255, 0.4);\n        }\n\n        .btn:active {\n            transform: translateY(0);\n        }\n\n        .log-output {\n            background: #2d3748;\n            color: #e2e8f0;\n            padding: 15px;\n            border-radius: 8px;\n            font-family: 'Courier New', monospace;\n            font-size: 0.9rem;\n            max-height: 200px;\n            overflow-y: auto;\n            white-space: pre-wrap;\n            margin-top: 15px;\n            display: none;\n        }\n\n        .footer {\n            background: #f8f9fa;\n            padding: 20px;\n            text-align: center;\n            color: #6c757d;\n            border-top: 1px solid #e9ecef;\n        }\n\n        @media (max-width: 768px) {\n            body { padding: 10px; }\n            .header { padding: 20px; }\n            .content { padding: 20px; }\n            .actions { grid-template-columns: 1fr; }\n        }\n    </style>\n</head>\n<body>\n    <div class=\"container\">\n        <div class=\"header\">\n            <h1>"@
            + module_id@
            + " 模块</h1>\n            <p>KernelSU 模块控制面板</p>\n        </div>\n        \n        <div class=\"content\">\n            <div class=\"section\">\n                <h2>📊 模块状态</h2>\n                <div class=\"status-card\">\n                    <div class=\"status-indicator\" id=\"statusIndicator\"></div>\n                    <span id=\"statusText\">模块运行中</span>\n                </div>\n            </div>\n            \n            <div class=\"section\">\n                <h2>ℹ️ 模块信息</h2>\n                <div class=\"info-grid\">\n                    <div class=\"info-item\">\n                        <strong>模块ID:</strong>\n                        <span>"@
            + module_id@
            + "</span>\n                    </div>\n                    <div class=\"info-item\">\n                        <strong>版本:</strong>\n                        <span>v0.1.0</span>\n                    </div>\n                    <div class=\"info-item\">\n                        <strong>作者:</strong>\n                        <span>APMM Team</span>\n                    </div>\n                    <div class=\"info-item\">\n                        <strong>创建工具:</strong>\n                        <span>APMM</span>\n                    </div>\n                </div>\n            </div>\n            \n            <div class=\"section\">\n                <h2>🔧 操作</h2>\n                <div class=\"actions\">\n                    <button class=\"btn\" onclick=\"refreshStatus()\">🔄 刷新状态</button>\n                    <button class=\"btn\" onclick=\"viewSystemInfo()\">📋 系统信息</button>\n                    <button class=\"btn\" onclick=\"runTest()\">🧪 运行测试</button>\n                    <button class=\"btn\" onclick=\"toggleFullScreen()\">🖥️ 全屏切换</button>\n                </div>\n                <div class=\"log-output\" id=\"logOutput\"></div>\n            </div>\n        </div>\n        \n        <div class=\"footer\">\n            <p>&copy; 2024 APMM Team. 使用 Android Package Module Manager 创建</p>\n        </div>\n    </div>\n\n    <script type=\"module\">\n        // 导入 KernelSU API\n        import { exec, toast, fullScreen } from 'kernelsu';\n\n        // 全局变量\n        let isFullScreen = false;\n\n        // 刷新状态\n        window.refreshStatus = async function() {\n            try {\n                const statusIndicator = document.getElementById('statusIndicator');\n                const statusText = document.getElementById('statusText');\n                \n                // 检查模块状态\n                const { errno, stdout } = await exec('ls /data/adb/modules/"@
            + module_id@
            + "');\n                \n                if (errno === 0) {\n                    statusIndicator.style.background = '#28a745';\n                    statusText.textContent = '模块运行中';\n                    toast('状态刷新成功');\n                } else {\n                    statusIndicator.style.background = '#dc3545';\n                    statusText.textContent = '模块未运行';\n                    toast('模块状态异常');\n                }\n            } catch (error) {\n                console.error('刷新状态失败:', error);\n                toast('刷新状态失败');\n            }\n        };\n\n        // 查看系统信息\n        window.viewSystemInfo = async function() {\n            try {\n                const logOutput = document.getElementById('logOutput');\n                logOutput.style.display = 'block';\n                \n                const commands = [\n                    'uname -a',\n                    'getprop ro.product.model',\n                    'getprop ro.build.version.release',\n                    'df -h /data'\n                ];\n                \n                let output = '=== 系统信息 ===\\\\n';\n                \n                for (const cmd of commands) {\n                    const { errno, stdout } = await exec(cmd);\n                    if (errno === 0) {\n                        output += `$ ${cmd}\\\\n${stdout}\\\\n\\\\n`;\n                    }\n                }\n                \n                logOutput.textContent = output;\n                toast('系统信息获取成功');\n            } catch (error) {\n                console.error('获取系统信息失败:', error);\n                toast('获取系统信息失败');\n            }\n        };\n\n        // 运行测试\n        window.runTest = async function() {\n            try {\n                const logOutput = document.getElementById('logOutput');\n                logOutput.style.display = 'block';\n                \n                let output = '=== "@
            + module_id@
            + " 模块测试 ===\\\\n';\n                output += `开始时间: ${new Date().toLocaleString()}\\\\n\\\\n`;\n                \n                // 测试模块目录\n                const { errno: dirErrno, stdout: dirStdout } = await exec('ls -la /data/adb/modules/"@
            + module_id@
            + "');\n                if (dirErrno === 0) {\n                    output += '✅ 模块目录存在\\\\n';\n                    output += `目录内容:\\\\n${dirStdout}\\\\n\\\\n`;\n                } else {\n                    output += '❌ 模块目录不存在\\\\n\\\\n';\n                }\n                \n                // 测试模块属性\n                const { errno: propErrno, stdout: propStdout } = await exec('cat /data/adb/modules/"@
            + module_id@
            + "/module.prop');\n                if (propErrno === 0) {\n                    output += '✅ 模块属性文件存在\\\\n';\n                    output += `属性内容:\\\\n${propStdout}\\\\n\\\\n`;\n                } else {\n                    output += '❌ 模块属性文件不存在\\\\n\\\\n';\n                }\n                \n                output += `完成时间: ${new Date().toLocaleString()}\\\\n`;\n                \n                logOutput.textContent = output;\n                toast('测试完成');\n            } catch (error) {\n                console.error('运行测试失败:', error);\n                toast('运行测试失败');\n            }\n        };\n\n        // 切换全屏\n        window.toggleFullScreen = function() {\n            try {\n                isFullScreen = !isFullScreen;\n                fullScreen(isFullScreen);\n                toast(isFullScreen ? '已进入全屏' : '已退出全屏');\n            } catch (error) {\n                console.error('切换全屏失败:', error);\n                toast('切换全屏失败');\n            }\n        };        // 页面加载完成后初始化\n        document.addEventListener('DOMContentLoaded', function() {\n            console.log('"@
            + module_id@
            + " 模块 WebUI 已加载');\n            toast('欢迎使用 "@
            + module_id@
            + " 模块');\n        });\n    </script>\n</body>\n</html>"@);
    }
    s
}

} // verus!